//! The dispatch engine: rules sorted by priority, tried in turn on the front
//! of the remaining buffer until it is used up.
use vstd::prelude::*;
use crate::node::{ASTNode, NodeView};
use crate::rules::{Rule, match_spec, len_spec, build_spec, state_after, match_rule, capture_len, build};
use crate::state::{State, StateView, initial_state};
use crate::table::{RuleMap, rules_of};
use crate::text::{preprocessed, preprocess, slice_string};
use crate::pattern::chars_of;

verus! {

/// `s` with `r` put after every rule of order at most its own and before the
/// rest.
pub open spec fn insert_by_order(s: Seq<Rule>, r: Rule) -> Seq<Rule>
    decreases s.len(),
{
    if s.len() == 0 || s.last().order <= r.order {
        s.push(r)
    } else {
        insert_by_order(s.drop_last(), r).push(s.last())
    }
}

/// The rules sorted by ascending order; rules of equal order keep their
/// table order.
pub open spec fn sort_by_order(s: Seq<Rule>) -> Seq<Rule>
    decreases s.len(),
{
    if s.len() == 0 {
        s
    } else {
        insert_by_order(sort_by_order(s.drop_last()), s.last())
    }
}

/// Whether the rules are in ascending order.
pub open spec fn is_sorted(s: Seq<Rule>) -> bool {
    forall|i: int, j: int| 0 <= i < j < s.len() ==> s[i].order <= s[j].order
}

/// The first rule, from index `i` on, that matches the front of `src`, with
/// its captures.
pub open spec fn first_match(rules: Seq<Rule>, src: Seq<char>, st: StateView, i: int) -> Option<(int, Seq<Seq<char>>)>
    decreases rules.len() - i,
{
    if i < 0 || i >= rules.len() {
        None
    } else {
        match match_spec(rules[i].kind, src, st) {
            Some(c) => Some((i, c)),
            None => first_match(rules, src, st, i + 1),
        }
    }
}

/// What `first_match` finds: a matching rule at or after `i` before which no
/// rule matches; or, where it finds none, that no rule from `i` on matches.
pub proof fn lemma_first_match(rules: Seq<Rule>, src: Seq<char>, st: StateView, i: int)
    requires
        0 <= i,
    ensures
        match first_match(rules, src, st, i) {
            Some(m) => i <= m.0 < rules.len() && match_spec(rules[m.0].kind, src, st) == Some(m.1)
                && forall|j: int| i <= j < m.0 ==> match_spec(#[trigger] rules[j].kind, src, st) is None,
            None => forall|j: int| i <= j < rules.len() ==> match_spec(#[trigger] rules[j].kind, src, st) is None,
        },
    decreases rules.len() - i,
{
    if i < rules.len() {
        lemma_first_match(rules, src, st, i + 1);
    }
}

/// What is consumed of `remaining` characters when a rule asks for `want`:
/// at least one and at most all of them.
pub open spec fn clamp_len(want: nat, remaining: nat) -> nat {
    if want < 1 {
        1
    } else if want > remaining {
        remaining
    } else {
        want
    }
}

/// The nodes a parse of `src` from state `st` gives, the lengths it consumes
/// (one per step), and the state it ends in. Each step takes the first
/// matching rule, consumes what it asks for (at least one character), records
/// the consumed text as the previous match, and appends the rule's node if it
/// builds one. Where no rule matches, one character is dropped.
pub open spec fn run(rules: Seq<Rule>, src: Seq<char>, st: StateView) -> (Seq<NodeView>, Seq<nat>, StateView)
    decreases src.len(),
{
    if src.len() == 0 {
        (Seq::empty(), Seq::empty(), st)
    } else {
        match first_match(rules, src, st, 0) {
            None => {
                let r = run(rules, src.subrange(1, src.len() as int), st);
                (r.0, seq![1nat] + r.1, r.2)
            },
            Some(m) => {
                let kind = rules[m.0].kind;
                let k = clamp_len(len_spec(kind, m.1), src.len());
                let next = StateView { prev_capture: src.subrange(0, k as int), ..state_after(kind, m.1, st) };
                let r = run(rules, src.subrange(k as int, src.len() as int), next);
                let nodes = match build_spec(kind, m.1, st) {
                    Some(n) => seq![n] + r.0,
                    None => r.0,
                };
                (nodes, seq![k] + r.1, r.2)
            },
        }
    }
}

/// The state a parse starts from: the caller's, or the initial one.
pub open spec fn start_state(state: Option<State>) -> StateView {
    match state {
        Some(s) => s@,
        None => initial_state(),
    }
}

/// The views of a sequence of nodes.
pub open spec fn views(s: Seq<ASTNode>) -> Seq<NodeView> {
    s.map_values(|n: ASTNode| n@)
}

/// The view of a selected rule index and its captures.
pub open spec fn selection_view(r: Option<(usize, Vec<String>)>) -> Option<(int, Seq<Seq<char>>)> {
    match r {
        Some((i, c)) => Some((i as int, c.deep_view())),
        None => None,
    }
}

/// A parser: the rules of a table in the order they are tried.
#[derive(Debug, Clone)]
pub struct Parser {
    pub rules: Vec<Rule>,
}

proof fn lemma_insert_at(s: Seq<Rule>, r: Rule, k: int)
    requires
        0 <= k <= s.len(),
        forall|j: int| k <= j < s.len() ==> s[j].order > r.order,
        k == 0 || s[k - 1].order <= r.order,
    ensures
        insert_by_order(s, r) == s.subrange(0, k).push(r) + s.subrange(k, s.len() as int),
    decreases s.len(),
{
    if s.len() == k {
        assert(s.subrange(0, k) =~= s);
        assert(s.subrange(0, k).push(r) + s.subrange(k, s.len() as int) =~= s.push(r));
    } else {
        let t = s.drop_last();
        lemma_insert_at(t, r, k);
        assert(s.subrange(0, k).push(r) + s.subrange(k, s.len() as int)
            =~= (t.subrange(0, k).push(r) + t.subrange(k, t.len() as int)).push(s.last()));
    }
}

/// Sorts the rules of a table by order, keeping table order among equal
/// orders, into a parser.
pub fn parser_for(rules: RuleMap) -> (p: Parser)
    ensures
        p.rules@ == sort_by_order(rules_of(rules@)),
{
    let all = rules.rules();
    let mut sorted: Vec<Rule> = Vec::new();
    let mut i: usize = 0;
    assert(all@.subrange(0, 0) =~= Seq::<Rule>::empty());
    while i < all.len()
        invariant
            i <= all@.len(),
            all@ == rules_of(rules@),
            sorted@ == sort_by_order(all@.subrange(0, i as int)),
        decreases all@.len() - i,
    {
        let r = all[i];
        let mut k: usize = sorted.len();
        while k > 0 && sorted[k - 1].order > r.order
            invariant
                k <= sorted@.len(),
                forall|j: int| k <= j < sorted@.len() ==> sorted@[j].order > r.order,
            decreases k,
        {
            k = k - 1;
        }
        proof {
            lemma_insert_at(sorted@, r, k as int);
            assert(all@.subrange(0, i + 1).drop_last() =~= all@.subrange(0, i as int));
        }
        sorted.insert(k, r);
        assert(sorted@ =~= sort_by_order(all@.subrange(0, i + 1)));
        i = i + 1;
    }
    assert(all@.subrange(0, all@.len() as int) =~= all@);
    Parser { rules: sorted }
}

impl Parser {
    /// The first rule that matches the front of `src`, by position in the
    /// parser's order, with its captures.
    pub fn select(&self, src: &str, state: &State) -> (r: Option<(usize, Vec<String>)>)
        ensures
            selection_view(r) == first_match(self.rules@, src@, state@, 0),
    {
        let n = self.rules.len();
        let mut i: usize = 0;
        while i < n
            invariant
                i <= n,
                n == self.rules@.len(),
                first_match(self.rules@, src@, state@, 0) == first_match(self.rules@, src@, state@, i as int),
            decreases n - i,
        {
            match match_rule(self.rules[i].kind, src, state) {
                Some(c) => {
                    return Some((i, c));
                },
                None => {},
            }
            i = i + 1;
        }
        None
    }

    /// Parses `source` after preprocessing it, from the given state or the
    /// initial one, until the buffer is used up.
    pub fn parse(&self, source: &str, state: Option<State>) -> (r: Vec<ASTNode>)
        ensures
            views(r@) == run(self.rules@, preprocessed(source@), start_state(state)).0,
    {
        let mut st = match state {
            Some(s) => s,
            None => State::default(),
        };
        self.parse_in(source, &mut st)
    }

    /// Parses `source` after preprocessing it, threading the caller's state:
    /// a nested parse sees the definitions made so far, and the caller sees
    /// those it adds.
    pub fn parse_in(&self, source: &str, state: &mut State) -> (r: Vec<ASTNode>)
        ensures
            views(r@) == run(self.rules@, preprocessed(source@), old(state)@).0,
            final(state)@ == run(self.rules@, preprocessed(source@), old(state)@).2,
    {
        let ghost st0 = state@;
        let text = preprocess(source);
        let buf = chars_of(text.as_str());
        let n = buf.len();
        let mut pos: usize = 0;
        let mut out: Vec<ASTNode> = Vec::new();
        assert(buf@.subrange(0, n as int) =~= buf@);
        assert(views(out@) + run(self.rules@, buf@, st0).0 =~= run(self.rules@, buf@, st0).0);
        while pos < n
            invariant
                pos <= n,
                n == buf@.len(),
                buf@ == preprocessed(source@),
                run(self.rules@, buf@, st0).0
                    == views(out@) + run(self.rules@, buf@.subrange(pos as int, n as int), state@).0,
                run(self.rules@, buf@, st0).2 == run(self.rules@, buf@.subrange(pos as int, n as int), state@).2,
            decreases n - pos,
        {
            let ghost rest = buf@.subrange(pos as int, n as int);
            let ghost before = out@;
            let remaining: usize = n - pos;
            let src = slice_string(&buf, pos, n);
            match self.select(src.as_str(), state) {
                None => {
                    assert(rest.subrange(1, rest.len() as int) =~= buf@.subrange(pos + 1, n as int));
                    pos = pos + 1;
                },
                Some((i, c)) => {
                    proof { lemma_first_match(self.rules@, rest, state@, 0); }
                    let kind = self.rules[i].kind;
                    let want = capture_len(kind, &c);
                    let k: usize = if want < 1 {
                        1
                    } else if want > remaining as u128 {
                        remaining
                    } else {
                        want as usize
                    };
                    let node = build(kind, &c, state);
                    state.prev_capture = slice_string(&buf, pos, pos + k);
                    assert(rest.subrange(0, k as int) =~= buf@.subrange(pos as int, pos + k));
                    assert(rest.subrange(k as int, rest.len() as int) =~= buf@.subrange(pos + k, n as int));
                    let ghost tail = run(self.rules@, buf@.subrange(pos + k, n as int), state@).0;
                    match node {
                        Some(nd) => {
                            out.push(nd);
                            assert(views(out@) =~= views(before).push(nd@));
                            assert(views(before) + (seq![nd@] + tail) =~= views(out@) + tail);
                        },
                        None => {},
                    }
                    pos = pos + k;
                },
            }
        }
        assert(buf@.subrange(n as int, n as int) =~= Seq::<char>::empty());
        assert(views(out@) + Seq::<NodeView>::empty() =~= views(out@));
        out
    }
}

} // verus!
