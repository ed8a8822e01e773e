//! The state shared by the rules during one parse.
use vstd::prelude::*;

verus! {

/// A reference definition: a lower-cased label with its target and title.
#[derive(Debug, Clone)]
pub struct Definition {
    pub label: String,
    pub target: String,
    pub title: String,
}

impl View for Definition {
    type V = (Seq<char>, Seq<char>, Seq<char>);

    open spec fn view(&self) -> (Seq<char>, Seq<char>, Seq<char>) {
        (self.label@, self.target@, self.title@)
    }
}

/// Parse state: block or inline mode, list nesting, the text of the last
/// match and the reference definitions seen so far. Definitions are only ever
/// appended, through `define`.
#[derive(Debug, Clone)]
pub struct State {
    pub inline: bool,
    pub in_list: bool,
    pub prev_capture: String,
    pub defs: Vec<Definition>,
}

pub struct StateView {
    pub inline: bool,
    pub in_list: bool,
    pub prev_capture: Seq<char>,
    pub defs: Seq<(Seq<char>, Seq<char>, Seq<char>)>,
}

impl View for State {
    type V = StateView;

    open spec fn view(&self) -> StateView {
        StateView {
            inline: self.inline,
            in_list: self.in_list,
            prev_capture: self.prev_capture@,
            defs: self.defs@.map_values(|d: Definition| d@),
        }
    }
}

/// The state a parse starts from: block mode, outside lists, no previous
/// match and no definitions.
pub open spec fn initial_state() -> StateView {
    StateView { inline: false, in_list: false, prev_capture: Seq::empty(), defs: Seq::empty() }
}

/// Target and title of the latest definition of `label`.
pub open spec fn lookup_def(defs: Seq<(Seq<char>, Seq<char>, Seq<char>)>, label: Seq<char>) -> Option<(Seq<char>, Seq<char>)>
    decreases defs.len(),
{
    if defs.len() == 0 {
        None
    } else if defs.last().0 == label {
        Some((defs.last().1, defs.last().2))
    } else {
        lookup_def(defs.drop_last(), label)
    }
}

impl Default for State {
    fn default() -> (r: State)
        ensures
            r@ == initial_state(),
    {
        let r = State { inline: false, in_list: false, prev_capture: String::new(), defs: Vec::new() };
        assert(r@.defs =~= Seq::<(Seq<char>, Seq<char>, Seq<char>)>::empty());
        r
    }
}

impl State {
    /// Registers a definition; a later one for the same label wins.
    pub fn define(&mut self, label: String, target: String, title: String)
        ensures
            final(self)@ == (StateView { defs: old(self)@.defs.push((label@, target@, title@)), ..old(self)@ }),
    {
        self.defs.push(Definition { label, target, title });
        assert(self@.defs =~= old(self)@.defs.push((label@, target@, title@)));
    }

    /// Target and title of the latest definition of `label`, if any.
    pub fn lookup(&self, label: &str) -> (r: Option<(String, String)>)
        ensures
            r.deep_view() == lookup_def(self@.defs, label@),
    {
        let key = String::from_str(label);
        let mut k: usize = self.defs.len();
        assert(self@.defs.subrange(0, k as int) =~= self@.defs);
        while k > 0
            invariant
                k <= self.defs@.len(),
                key@ == label@,
                lookup_def(self@.defs, label@) == lookup_def(self@.defs.subrange(0, k as int), label@),
            decreases k,
        {
            assert(self@.defs.subrange(0, k as int).drop_last() =~= self@.defs.subrange(0, k - 1));
            let d = &self.defs[k - 1];
            if d.label == key {
                return Some((d.target.clone(), d.title.clone()));
            }
            k = k - 1;
        }
        None
    }
}

} // verus!
