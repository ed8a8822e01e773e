//! Properties of the engine, proved over the specifications of `parse`.
use vstd::prelude::*;
use crate::parse::{run, first_match, sort_by_order, insert_by_order, is_sorted, lemma_first_match};
use crate::rules::{Rule, RuleKind, match_spec};
use crate::state::StateView;
use crate::text::trailing_blank_line;

verus! {

/// The sum of a sequence of lengths.
pub open spec fn total(s: Seq<nat>) -> nat
    decreases s.len(),
{
    if s.len() == 0 {
        0
    } else {
        s[0] + total(s.drop_first())
    }
}

/// Forward progress: every step of a parse consumes at least one character,
/// and the steps together consume exactly the whole (preprocessed) input, so
/// there are at most as many steps as characters.
pub proof fn lemma_forward_progress(rules: Seq<Rule>, src: Seq<char>, st: StateView)
    ensures
        run(rules, src, st).1.len() <= src.len(),
        forall|i: int| 0 <= i < run(rules, src, st).1.len() ==> run(rules, src, st).1[i] >= 1,
        total(run(rules, src, st).1) == src.len(),
    decreases src.len(),
{
    if src.len() > 0 {
        let steps = run(rules, src, st).1;
        match first_match(rules, src, st, 0) {
            None => {
                let rest = src.subrange(1, src.len() as int);
                lemma_forward_progress(rules, rest, st);
                assert(steps.drop_first() =~= run(rules, rest, st).1);
            },
            Some(m) => {
                let kind = rules[m.0].kind;
                let k = crate::parse::clamp_len(crate::rules::len_spec(kind, m.1), src.len());
                let next = StateView { prev_capture: src.subrange(0, k as int), ..crate::rules::state_after(kind, m.1, st) };
                let rest = src.subrange(k as int, src.len() as int);
                lemma_forward_progress(rules, rest, next);
                assert(steps.drop_first() =~= run(rules, rest, next).1);
            },
        }
    }
}

/// Definitions are only ever added during a parse: the state a parse ends
/// in holds every definition it started with, in place.
pub proof fn lemma_definitions_kept(rules: Seq<Rule>, src: Seq<char>, st: StateView)
    ensures
        st.defs.len() <= run(rules, src, st).2.defs.len(),
        run(rules, src, st).2.defs.subrange(0, st.defs.len() as int) == st.defs,
    decreases src.len(),
{
    if src.len() == 0 {
        assert(st.defs.subrange(0, st.defs.len() as int) =~= st.defs);
    } else {
        match first_match(rules, src, st, 0) {
            None => {
                lemma_definitions_kept(rules, src.subrange(1, src.len() as int), st);
            },
            Some(m) => {
                let kind = rules[m.0].kind;
                let k = crate::parse::clamp_len(crate::rules::len_spec(kind, m.1), src.len());
                let next = StateView { prev_capture: src.subrange(0, k as int), ..crate::rules::state_after(kind, m.1, st) };
                let rest = src.subrange(k as int, src.len() as int);
                lemma_definitions_kept(rules, rest, next);
                let fin = run(rules, rest, next).2.defs;
                assert(next.defs.subrange(0, st.defs.len() as int) =~= st.defs);
                assert(fin.subrange(0, st.defs.len() as int)
                    =~= fin.subrange(0, next.defs.len() as int).subrange(0, st.defs.len() as int));
            },
        }
    }
}

proof fn lemma_insert_bounded(s: Seq<Rule>, r: Rule, b: u64)
    requires
        forall|j: int| 0 <= j < s.len() ==> s[j].order <= b,
        r.order <= b,
    ensures
        insert_by_order(s, r).len() == s.len() + 1,
        forall|j: int| 0 <= j < insert_by_order(s, r).len() ==> insert_by_order(s, r)[j].order <= b,
    decreases s.len(),
{
    if s.len() > 0 && s.last().order > r.order {
        lemma_insert_bounded(s.drop_last(), r, b);
    }
}

proof fn lemma_insert_sorted(s: Seq<Rule>, r: Rule)
    requires
        is_sorted(s),
    ensures
        is_sorted(insert_by_order(s, r)),
    decreases s.len(),
{
    if s.len() > 0 && s.last().order > r.order {
        let t = s.drop_last();
        lemma_insert_sorted(t, r);
        lemma_insert_bounded(t, r, s.last().order);
    }
}

/// The rule order a parser tries is sorted by priority.
pub proof fn lemma_sort_sorted(s: Seq<Rule>)
    ensures
        is_sorted(sort_by_order(s)),
    decreases s.len(),
{
    if s.len() > 0 {
        lemma_sort_sorted(s.drop_last());
        lemma_insert_sorted(sort_by_order(s.drop_last()), s.last());
    }
}

proof fn lemma_insert_multiset(s: Seq<Rule>, r: Rule)
    ensures
        insert_by_order(s, r).to_multiset() =~= s.to_multiset().insert(r),
    decreases s.len(),
{
    broadcast use vstd::seq_lib::group_to_multiset_ensures;
    if s.len() > 0 && s.last().order > r.order {
        let t = s.drop_last();
        lemma_insert_multiset(t, r);
        assert(s =~= t.push(s.last()));
    }
}

/// A parser tries every rule of its table, each as often as the table holds
/// it: the sorted rules are a permutation of the table's.
pub proof fn lemma_sort_permutation(s: Seq<Rule>)
    ensures
        sort_by_order(s).to_multiset() =~= s.to_multiset(),
    decreases s.len(),
{
    broadcast use vstd::seq_lib::group_to_multiset_ensures;
    if s.len() > 0 {
        let t = s.drop_last();
        lemma_sort_permutation(t);
        lemma_insert_multiset(sort_by_order(t), s.last());
        assert(s =~= t.push(s.last()));
    }
}

/// Priority: of all the rules of a table that match the front of the buffer,
/// the parser picks one of lowest order, and it is the first such in its own
/// order; where it picks none, no rule matches.
pub proof fn lemma_priority(table: Seq<Rule>, src: Seq<char>, st: StateView)
    ensures
        match first_match(sort_by_order(table), src, st, 0) {
            Some(m) => forall|j: int| 0 <= j < sort_by_order(table).len()
                && (#[trigger] match_spec(sort_by_order(table)[j].kind, src, st)) is Some
                ==> m.0 <= j && sort_by_order(table)[m.0].order <= sort_by_order(table)[j].order,
            None => forall|j: int| 0 <= j < sort_by_order(table).len()
                ==> (#[trigger] match_spec(sort_by_order(table)[j].kind, src, st)) is None,
        },
{
    lemma_sort_sorted(table);
    lemma_first_match(sort_by_order(table), src, st, 0);
}

/// Mode gating: a paragraph never matches in inline mode, and a list matches
/// only where the previous match ends in a line of spaces alone and the
/// parser is inside a list or in block mode.
pub proof fn lemma_mode_gating(src: Seq<char>, st: StateView)
    ensures
        st.inline ==> match_spec(RuleKind::Paragraph, src, st) is None,
        match_spec(RuleKind::List, src, st) is Some
            ==> trailing_blank_line(st.prev_capture) is Some && (st.in_list || !st.inline),
{
}

} // verus!
