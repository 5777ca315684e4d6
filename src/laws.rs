use vstd::prelude::*;
use crate::classify::{converted_seq, entry_document, entry_title, missing_seq};
use crate::convert::{conversion, ConvertError};
use crate::feed::EntryView;

verus! {

/// Whether `e` lands among the converted documents (`converted`) or among
/// the missing records (`!converted`).
pub open spec fn routed_to(e: EntryView, converted: bool) -> bool {
    (entry_document(e) is Some) == converted
}

/// Positions in `es` of the entries routed to the given side, in feed order.
pub open spec fn positions(es: Seq<EntryView>, converted: bool) -> Seq<int>
    decreases es.len(),
{
    if es.len() == 0 {
        Seq::empty()
    } else {
        let prev = positions(es.drop_last(), converted);
        if routed_to(es.last(), converted) {
            prev.push(es.len() - 1)
        } else {
            prev
        }
    }
}

pub open spec fn converted_positions(es: Seq<EntryView>) -> Seq<int> {
    positions(es, true)
}

pub open spec fn missing_positions(es: Seq<EntryView>) -> Seq<int> {
    positions(es, false)
}

/// Each converted document is made from the entry at its position.
pub open spec fn converted_side_matches(es: Seq<EntryView>) -> bool {
    let ps = positions(es, true);
    &&& ps.len() == converted_seq(es).len()
    &&& forall|k: int| 0 <= k < converted_seq(es).len() ==> {
        let p = ps[k];
        &&& entry_document(es[p]) == Some((#[trigger] converted_seq(es)[k]).1)
        &&& converted_seq(es)[k].0 == entry_title(es[p])
    }
}

/// Each missing record names the entry at its position.
pub open spec fn missing_side_matches(es: Seq<EntryView>) -> bool {
    let ps = positions(es, false);
    &&& ps.len() == missing_seq(es).len()
    &&& forall|k: int| #![trigger missing_seq(es)[k]] #![trigger ps[k]] 0 <= k < missing_seq(es).len() ==> {
        let p = ps[k];
        &&& entry_document(es[p]) == None::<Seq<char>>
        &&& missing_seq(es)[k] == entry_title(es[p])
    }
}

/// The output list of one side, each item given by the entry it came from.
pub open spec fn side_matches(es: Seq<EntryView>, converted: bool) -> bool {
    if converted { converted_side_matches(es) } else { missing_side_matches(es) }
}

/// `ps` is a strictly increasing sequence of positions in `0..n`.
pub open spec fn increasing_positions(ps: Seq<int>, n: int) -> bool {
    &&& forall|k: int| 0 <= k < ps.len() ==> 0 <= #[trigger] ps[k] < n
    &&& forall|a: int, b: int| 0 <= a < b < ps.len() ==> ps[a] < ps[b]
}

proof fn lemma_positions(es: Seq<EntryView>, converted: bool)
    ensures
        side_matches(es, converted),
        increasing_positions(positions(es, converted), es.len() as int),
        forall|i: int| 0 <= i < es.len() ==>
            (positions(es, converted).contains(i) <==> #[trigger] routed_to(es[i], converted)),
    decreases es.len(),
{
    if es.len() > 0 {
        let prev = es.drop_last();
        lemma_positions(prev, converted);
        let ps = positions(es, converted);
        let pp = positions(prev, converted);
        if converted {
            assert(converted_side_matches(prev));
            assert(converted_side_matches(es));
        } else {
            assert(missing_side_matches(prev));
            let ms = missing_seq(es);
            assert forall|k: int| #![trigger ms[k]] #![trigger ps[k]] 0 <= k < ms.len() implies {
                let p = ps[k];
                &&& entry_document(es[p]) == None::<Seq<char>>
                &&& ms[k] == entry_title(es[p])
            } by {
                if k < missing_seq(prev).len() {
                    assert(ms[k] == missing_seq(prev)[k]);
                    assert(ps[k] == pp[k]);
                    assert(es[pp[k]] == prev[pp[k]]);
                } else {
                    assert(entry_document(es.last()) is None);
                    assert(ps[k] == es.len() - 1);
                    assert(ms[k] == entry_title(es.last()));
                }
            }
            assert(missing_side_matches(es));
        }
        assert forall|i: int| 0 <= i < es.len() implies
            (ps.contains(i) <==> #[trigger] routed_to(es[i], converted)) by {
            if i < es.len() - 1 {
                assert(es[i] == prev[i]);
                if ps.contains(i) {
                    let j = choose|j: int| 0 <= j < ps.len() && ps[j] == i;
                    if j < pp.len() {
                        assert(pp[j] == i);
                    }
                }
                if pp.contains(i) {
                    let j = choose|j: int| 0 <= j < pp.len() && pp[j] == i;
                    assert(ps[j] == i);
                }
            } else {
                if routed_to(es[i], converted) {
                    assert(ps.last() == i);
                } else if ps.contains(i) {
                    let j = choose|j: int| 0 <= j < ps.len() && ps[j] == i;
                    assert(pp[j] < prev.len());
                }
            }
        }
    }
}

proof fn lemma_lengths(es: Seq<EntryView>)
    ensures
        converted_seq(es).len() + missing_seq(es).len() == es.len(),
    decreases es.len(),
{
    if es.len() > 0 {
        lemma_lengths(es.drop_last());
    }
}

proof fn lemma_split(a: Seq<EntryView>, b: Seq<EntryView>)
    ensures
        converted_seq(a + b) == converted_seq(a) + converted_seq(b),
        missing_seq(a + b) == missing_seq(a) + missing_seq(b),
    decreases b.len(),
{
    if b.len() == 0 {
        assert(a + b =~= a);
        assert(converted_seq(a) + converted_seq(b) =~= converted_seq(a));
        assert(missing_seq(a) + missing_seq(b) =~= missing_seq(a));
    } else {
        lemma_split(a, b.drop_last());
        assert((a + b).drop_last() =~= a + b.drop_last());
        assert((a + b).last() == b.last());
        assert(converted_seq(a) + converted_seq(b.drop_last()).push((entry_title(b.last()), entry_document(b.last())->Some_0))
            =~= (converted_seq(a) + converted_seq(b.drop_last())).push((entry_title(b.last()), entry_document(b.last())->Some_0)));
        assert(missing_seq(a) + missing_seq(b.drop_last()).push(entry_title(b.last()))
            =~= (missing_seq(a) + missing_seq(b.drop_last())).push(entry_title(b.last())));
    }
}

/// Every entry is routed exactly once: it is either converted or missing,
/// never both and never neither, so the two outputs together are as long as
/// the input.
pub proof fn lemma_classification_total(es: Seq<EntryView>)
    ensures
        converted_seq(es).len() + missing_seq(es).len() == es.len(),
        forall|i: int| 0 <= i < es.len() ==>
            (#[trigger] converted_positions(es).contains(i)) != missing_positions(es).contains(i),
{
    lemma_lengths(es);
    lemma_positions(es, true);
    lemma_positions(es, false);
    assert forall|i: int| 0 <= i < es.len() implies
        (#[trigger] converted_positions(es).contains(i)) != missing_positions(es).contains(i) by {
        assert(routed_to(es[i], true) != routed_to(es[i], false));
    }
}

/// Both outputs keep feed order: the k-th converted document (and the k-th
/// missing record) comes from the entry at a position that grows strictly
/// with k.
pub proof fn lemma_order_preserved(es: Seq<EntryView>)
    ensures
        converted_positions(es).len() == converted_seq(es).len(),
        increasing_positions(converted_positions(es), es.len() as int),
        forall|k: int| 0 <= k < converted_seq(es).len() ==> {
            let p = converted_positions(es)[k];
            &&& entry_document(es[p]) == Some((#[trigger] converted_seq(es)[k]).1)
            &&& converted_seq(es)[k].0 == entry_title(es[p])
        },
        missing_positions(es).len() == missing_seq(es).len(),
        increasing_positions(missing_positions(es), es.len() as int),
        forall|k: int| #![trigger missing_seq(es)[k]] #![trigger missing_positions(es)[k]]
            0 <= k < missing_seq(es).len() ==> {
            let p = missing_positions(es)[k];
            &&& entry_document(es[p]) == None::<Seq<char>>
            &&& missing_seq(es)[k] == entry_title(es[p])
        },
{
    lemma_positions(es, true);
    lemma_positions(es, false);
    assert(converted_side_matches(es));
    assert(missing_side_matches(es));
}

/// An entry whose markup fails to convert becomes a missing record and
/// leaves the entries around it routed exactly as they would be without it.
pub proof fn lemma_malformed_entry_isolated(before: Seq<EntryView>, bad: EntryView, after: Seq<EntryView>)
    requires
        bad.content is Some,
        conversion(bad.content->Some_0) is Err,
    ensures
        converted_seq(before + seq![bad] + after) == converted_seq(before) + converted_seq(after),
        missing_seq(before + seq![bad] + after)
            == missing_seq(before).push(entry_title(bad)) + missing_seq(after),
{
    lemma_split(before, seq![bad]);
    lemma_split(before + seq![bad], after);
    assert(seq![bad].drop_last() =~= Seq::<EntryView>::empty());
    assert(seq![bad].last() == bad);
    assert(entry_document(bad) is None);
    assert(converted_seq(Seq::<EntryView>::empty()) == Seq::<(Seq<char>, Seq<char>)>::empty());
    assert(missing_seq(Seq::<EntryView>::empty()) == Seq::<Seq<char>>::empty());
    assert(converted_seq(before) + converted_seq(seq![bad]) =~= converted_seq(before));
    assert(missing_seq(before) + missing_seq(seq![bad]) =~= missing_seq(before).push(entry_title(bad)));
}

/// Content that converts to an empty document is routed exactly as absent
/// content is, wherever the entry stands in the feed.
pub proof fn lemma_empty_output_is_missing(
    before: Seq<EntryView>,
    title: Option<Seq<char>>,
    html: Seq<char>,
    after: Seq<EntryView>,
)
    requires
        conversion(html) == Ok::<Seq<char>, ConvertError>(Seq::<char>::empty()),
    ensures
        ({
            let with_content = before + seq![EntryView { title, content: Some(html) }] + after;
            let without = before + seq![EntryView { title, content: None }] + after;
            &&& converted_seq(with_content) == converted_seq(without)
            &&& missing_seq(with_content) == missing_seq(without)
        }),
{
    let e1 = EntryView { title, content: Some(html) };
    let e0 = EntryView { title, content: None };
    lemma_split(before, seq![e1]);
    lemma_split(before + seq![e1], after);
    lemma_split(before, seq![e0]);
    lemma_split(before + seq![e0], after);
    assert(seq![e1].drop_last() =~= Seq::<EntryView>::empty());
    assert(seq![e0].drop_last() =~= Seq::<EntryView>::empty());
    assert(entry_document(e1) is None);
    assert(entry_document(e0) is None);
}

} // verus!
