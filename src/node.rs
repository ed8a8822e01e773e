//! Output nodes: a `type` tag and an ordered list of named string fields.
use vstd::prelude::*;

verus! {

/// One named string value of a node.
#[derive(Debug, Clone)]
pub struct Field {
    pub name: String,
    pub value: String,
}

impl View for Field {
    type V = (Seq<char>, Seq<char>);

    open spec fn view(&self) -> (Seq<char>, Seq<char>) {
        (self.name@, self.value@)
    }
}

/// Builds a field from its name and value.
pub fn field(name: &str, value: String) -> (r: Field)
    ensures
        r@ == (name@, value@),
{
    Field { name: String::from_str(name), value }
}

/// A node of the parse result.
#[derive(Debug, Clone)]
pub struct ASTNode {
    pub node_type: String,
    pub fields: Vec<Field>,
}

/// What a node is: its tag and its fields in order.
pub struct NodeView {
    pub kind: Seq<char>,
    pub fields: Seq<(Seq<char>, Seq<char>)>,
}

impl View for ASTNode {
    type V = NodeView;

    open spec fn view(&self) -> NodeView {
        NodeView { kind: self.node_type@, fields: self.fields@.map_values(|f: Field| f@) }
    }
}

/// The value of the first field named `key` in `fields`, or the empty string.
pub open spec fn field_value(fields: Seq<(Seq<char>, Seq<char>)>, key: Seq<char>) -> Seq<char>
    decreases fields.len(),
{
    if fields.len() == 0 {
        Seq::empty()
    } else if fields[0].0 == key {
        fields[0].1
    } else {
        field_value(fields.drop_first(), key)
    }
}

/// The view of an optional node.
pub open spec fn node_view_of(o: Option<ASTNode>) -> Option<NodeView> {
    match o {
        Some(n) => Some(n@),
        None => None,
    }
}

/// A node view with no fields.
pub open spec fn view0(kind: Seq<char>) -> NodeView {
    NodeView { kind, fields: Seq::empty() }
}

/// A node view with one field.
pub open spec fn view1(kind: Seq<char>, n1: Seq<char>, v1: Seq<char>) -> NodeView {
    NodeView { kind, fields: seq![(n1, v1)] }
}

/// A node view with two fields.
pub open spec fn view2(kind: Seq<char>, n1: Seq<char>, v1: Seq<char>, n2: Seq<char>, v2: Seq<char>) -> NodeView {
    NodeView { kind, fields: seq![(n1, v1), (n2, v2)] }
}

/// A node view with three fields.
pub open spec fn view3(
    kind: Seq<char>,
    n1: Seq<char>,
    v1: Seq<char>,
    n2: Seq<char>,
    v2: Seq<char>,
    n3: Seq<char>,
    v3: Seq<char>,
) -> NodeView {
    NodeView { kind, fields: seq![(n1, v1), (n2, v2), (n3, v3)] }
}

impl ASTNode {
    /// A node with tag `kind` and the given fields.
    pub fn new(kind: &str, fields: Vec<Field>) -> (r: ASTNode)
        ensures
            r@ == (NodeView { kind: kind@, fields: fields@.map_values(|f: Field| f@) }),
    {
        ASTNode { node_type: String::from_str(kind), fields }
    }

    /// A node with no fields.
    pub fn leaf(kind: &str) -> (r: ASTNode)
        ensures
            r@ == (NodeView { kind: kind@, fields: Seq::empty() }),
    {
        let fields: Vec<Field> = Vec::new();
        let r = ASTNode::new(kind, fields);
        assert(r@.fields =~= Seq::<(Seq<char>, Seq<char>)>::empty());
        r
    }

    /// A node with one field.
    pub fn with1(kind: &str, n1: &str, v1: String) -> (r: ASTNode)
        ensures
            r@ == (NodeView { kind: kind@, fields: seq![(n1@, v1@)] }),
    {
        let fields = vec![field(n1, v1)];
        let r = ASTNode::new(kind, fields);
        assert(r@.fields =~= seq![(n1@, v1@)]);
        r
    }

    /// A node with two fields, in this order.
    pub fn with2(kind: &str, n1: &str, v1: String, n2: &str, v2: String) -> (r: ASTNode)
        ensures
            r@ == (NodeView { kind: kind@, fields: seq![(n1@, v1@), (n2@, v2@)] }),
    {
        let fields = vec![field(n1, v1), field(n2, v2)];
        let r = ASTNode::new(kind, fields);
        assert(r@.fields =~= seq![(n1@, v1@), (n2@, v2@)]);
        r
    }

    /// A node with three fields, in this order.
    pub fn with3(kind: &str, n1: &str, v1: String, n2: &str, v2: String, n3: &str, v3: String) -> (r: ASTNode)
        ensures
            r@ == (NodeView { kind: kind@, fields: seq![(n1@, v1@), (n2@, v2@), (n3@, v3@)] }),
    {
        let fields = vec![field(n1, v1), field(n2, v2), field(n3, v3)];
        let r = ASTNode::new(kind, fields);
        assert(r@.fields =~= seq![(n1@, v1@), (n2@, v2@), (n3@, v3@)]);
        r
    }

    /// The value under `key`: the tag for `"type"`, else the first field of
    /// that name, else the empty string.
    pub fn get(&self, key: &str) -> (r: String)
        ensures
            key@ == "type"@ ==> r@ == self@.kind,
            key@ != "type"@ ==> r@ == field_value(self@.fields, key@),
    {
        let k = String::from_str(key);
        let t = String::from_str("type");
        let is_type = k.eq(&t);
        if is_type {
            return self.node_type.clone();
        }
        let n = self.fields.len();
        let mut i: usize = 0;
        assert(self@.fields.subrange(0, n as int) =~= self@.fields);
        while i < n
            invariant
                i <= n,
                n == self.fields@.len(),
                k@ == key@,
                key@ != "type"@,
                field_value(self@.fields, key@) == field_value(self@.fields.subrange(i as int, n as int), key@),
            decreases n - i,
        {
            assert(self@.fields.subrange(i as int, n as int).drop_first()
                =~= self@.fields.subrange(i + 1, n as int));
            if self.fields[i].name == k {
                return self.fields[i].value.clone();
            }
            i = i + 1;
        }
        String::new()
    }
}

} // verus!
