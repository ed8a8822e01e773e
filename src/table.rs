//! Rule tables: a mapping from rule name to rule, and the default table.
use vstd::prelude::*;
use crate::rules::{Rule, RuleKind};

verus! {

/// A named rule of a table.
#[derive(Debug, Clone)]
pub struct RuleEntry {
    pub name: String,
    pub rule: Rule,
}

impl View for RuleEntry {
    type V = (Seq<char>, Rule);

    open spec fn view(&self) -> (Seq<char>, Rule) {
        (self.name@, self.rule)
    }
}

/// A rule table: rules under distinct names, in the order they were added.
#[derive(Debug, Clone)]
pub struct RuleMap {
    pub entries: Vec<RuleEntry>,
}

impl View for RuleMap {
    type V = Seq<(Seq<char>, Rule)>;

    open spec fn view(&self) -> Seq<(Seq<char>, Rule)> {
        self.entries@.map_values(|e: RuleEntry| e@)
    }
}

/// The index of the entry named `name`, counting from `i`.
pub open spec fn position_of(m: Seq<(Seq<char>, Rule)>, name: Seq<char>, i: int) -> Option<int>
    decreases m.len() - i,
{
    if i < 0 || i >= m.len() {
        None
    } else if m[i].0 == name {
        Some(i)
    } else {
        position_of(m, name, i + 1)
    }
}

/// The table after `insert`: an entry of the same name is replaced in place,
/// else the rule is added at the end.
pub open spec fn inserted(m: Seq<(Seq<char>, Rule)>, name: Seq<char>, rule: Rule) -> Seq<(Seq<char>, Rule)> {
    match position_of(m, name, 0) {
        Some(i) => m.update(i, (name, rule)),
        None => m.push((name, rule)),
    }
}

/// The table after `remove`: the entry named `name`, if any, is taken out.
pub open spec fn removed(m: Seq<(Seq<char>, Rule)>, name: Seq<char>) -> Seq<(Seq<char>, Rule)> {
    match position_of(m, name, 0) {
        Some(i) => m.remove(i),
        None => m,
    }
}

/// The rules of a table, in table order.
pub open spec fn rules_of(m: Seq<(Seq<char>, Rule)>) -> Seq<Rule> {
    m.map_values(|e: (Seq<char>, Rule)| e.1)
}

impl RuleMap {
    /// An empty table.
    pub fn new() -> (r: RuleMap)
        ensures
            r@ == Seq::<(Seq<char>, Rule)>::empty(),
    {
        let r = RuleMap { entries: Vec::new() };
        assert(r@ =~= Seq::<(Seq<char>, Rule)>::empty());
        r
    }

    /// The number of rules.
    pub fn len(&self) -> (r: usize)
        ensures
            r == self@.len(),
    {
        self.entries.len()
    }

    /// Puts `rule` under `name`, replacing a rule of that name.
    pub fn insert(&mut self, name: String, rule: Rule)
        ensures
            final(self)@ == inserted(old(self)@, name@, rule),
    {
        let n = self.entries.len();
        let mut i: usize = 0;
        while i < n
            invariant
                i <= n,
                n == self.entries@.len(),
                self@ == old(self)@,
                position_of(self@, name@, 0) == position_of(self@, name@, i as int),
            decreases n - i,
        {
            if self.entries[i].name == name {
                self.entries.set(i, RuleEntry { name, rule });
                assert(self@ =~= old(self)@.update(i as int, (name@, rule)));
                return;
            }
            i = i + 1;
        }
        self.entries.push(RuleEntry { name, rule });
        assert(self@ =~= old(self)@.push((name@, rule)));
    }

    /// Takes out the rule named `name`, returning it if there was one.
    pub fn remove(&mut self, name: &str) -> (r: Option<Rule>)
        ensures
            final(self)@ == removed(old(self)@, name@),
            r == (match position_of(old(self)@, name@, 0) {
                Some(i) => Some(old(self)@[i].1),
                None => None::<Rule>,
            }),
    {
        let key = String::from_str(name);
        let n = self.entries.len();
        let mut i: usize = 0;
        while i < n
            invariant
                i <= n,
                n == self.entries@.len(),
                self@ == old(self)@,
                key@ == name@,
                position_of(self@, name@, 0) == position_of(self@, name@, i as int),
            decreases n - i,
        {
            if self.entries[i].name == key {
                let e = self.entries.remove(i);
                assert(self@ =~= old(self)@.remove(i as int));
                return Some(e.rule);
            }
            i = i + 1;
        }
        None
    }

    /// The rules, in table order.
    pub fn rules(&self) -> (r: Vec<Rule>)
        ensures
            r@ == rules_of(self@),
    {
        let mut r: Vec<Rule> = Vec::new();
        let mut i: usize = 0;
        while i < self.entries.len()
            invariant
                i <= self.entries@.len(),
                r@ =~= rules_of(self@).subrange(0, i as int),
            decreases self.entries@.len() - i,
        {
            r.push(self.entries[i].rule);
            i = i + 1;
        }
        r
    }
}

/// The default table. Its order is the grammar's disambiguation policy:
/// block constructs first (headings before rules and paragraphs, code before
/// quotes and lists), then definitions and blank lines, then inline
/// constructs (escapes, links, emphasis before strong), and plain text last,
/// which catches whatever nothing else took.
pub open spec fn default_table() -> Seq<(Seq<char>, Rule)> {
    seq![
        ("heading"@, Rule { order: 1, kind: RuleKind::Heading }),
        ("lheading"@, Rule { order: 2, kind: RuleKind::LHeading }),
        ("hr"@, Rule { order: 3, kind: RuleKind::Hr }),
        ("codeBlock"@, Rule { order: 4, kind: RuleKind::CodeBlock }),
        ("fence"@, Rule { order: 5, kind: RuleKind::Fence }),
        ("blockQuote"@, Rule { order: 6, kind: RuleKind::BlockQuote }),
        ("list"@, Rule { order: 7, kind: RuleKind::List }),
        ("def"@, Rule { order: 8, kind: RuleKind::Def }),
        ("newline"@, Rule { order: 9, kind: RuleKind::Newline }),
        ("escape"@, Rule { order: 10, kind: RuleKind::Escape }),
        ("autolink"@, Rule { order: 11, kind: RuleKind::Autolink }),
        ("mailto"@, Rule { order: 12, kind: RuleKind::Mailto }),
        ("url"@, Rule { order: 13, kind: RuleKind::Url }),
        ("link"@, Rule { order: 14, kind: RuleKind::Link }),
        ("image"@, Rule { order: 15, kind: RuleKind::Image }),
        ("reflink"@, Rule { order: 16, kind: RuleKind::RefLink }),
        ("refimage"@, Rule { order: 17, kind: RuleKind::RefImage }),
        ("em"@, Rule { order: 18, kind: RuleKind::Em }),
        ("strong"@, Rule { order: 19, kind: RuleKind::Strong }),
        ("u"@, Rule { order: 20, kind: RuleKind::U }),
        ("del"@, Rule { order: 21, kind: RuleKind::Del }),
        ("inlineCode"@, Rule { order: 22, kind: RuleKind::InlineCode }),
        ("br"@, Rule { order: 23, kind: RuleKind::Br }),
        ("paragraph"@, Rule { order: 24, kind: RuleKind::Paragraph }),
        ("text"@, Rule { order: 25, kind: RuleKind::Text }),
    ]
}

fn push_rule(entries: &mut Vec<RuleEntry>, name: &str, order: u64, kind: RuleKind)
    ensures
        final(entries)@.map_values(|e: RuleEntry| e@)
            == old(entries)@.map_values(|e: RuleEntry| e@).push((name@, Rule { order, kind })),
{
    entries.push(RuleEntry { name: String::from_str(name), rule: Rule { order, kind } });
    assert(final(entries)@.map_values(|e: RuleEntry| e@)
        =~= old(entries)@.map_values(|e: RuleEntry| e@).push((name@, Rule { order, kind })));
}

/// The default table of markdown rules (see `default_table`).
pub fn create_default_rules() -> (r: RuleMap)
    ensures
        r@ == default_table(),
{
    let mut e: Vec<RuleEntry> = Vec::new();
    push_rule(&mut e, "heading", 1, RuleKind::Heading);
    push_rule(&mut e, "lheading", 2, RuleKind::LHeading);
    push_rule(&mut e, "hr", 3, RuleKind::Hr);
    push_rule(&mut e, "codeBlock", 4, RuleKind::CodeBlock);
    push_rule(&mut e, "fence", 5, RuleKind::Fence);
    push_rule(&mut e, "blockQuote", 6, RuleKind::BlockQuote);
    push_rule(&mut e, "list", 7, RuleKind::List);
    push_rule(&mut e, "def", 8, RuleKind::Def);
    push_rule(&mut e, "newline", 9, RuleKind::Newline);
    push_rule(&mut e, "escape", 10, RuleKind::Escape);
    push_rule(&mut e, "autolink", 11, RuleKind::Autolink);
    push_rule(&mut e, "mailto", 12, RuleKind::Mailto);
    push_rule(&mut e, "url", 13, RuleKind::Url);
    push_rule(&mut e, "link", 14, RuleKind::Link);
    push_rule(&mut e, "image", 15, RuleKind::Image);
    push_rule(&mut e, "reflink", 16, RuleKind::RefLink);
    push_rule(&mut e, "refimage", 17, RuleKind::RefImage);
    push_rule(&mut e, "em", 18, RuleKind::Em);
    push_rule(&mut e, "strong", 19, RuleKind::Strong);
    push_rule(&mut e, "u", 20, RuleKind::U);
    push_rule(&mut e, "del", 21, RuleKind::Del);
    push_rule(&mut e, "inlineCode", 22, RuleKind::InlineCode);
    push_rule(&mut e, "br", 23, RuleKind::Br);
    push_rule(&mut e, "paragraph", 24, RuleKind::Paragraph);
    push_rule(&mut e, "text", 25, RuleKind::Text);
    let r = RuleMap { entries: e };
    assert(r@ =~= default_table());
    r
}

} // verus!
