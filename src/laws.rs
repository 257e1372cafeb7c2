use vstd::prelude::*;
use crate::model::{AnswerView, EventView, NewEvent};
use crate::store::{appended, attach_error, attached, gapless, kept, scan, select, StoreError};

verus! {

/// The log after appending each of `es` in turn.
pub open spec fn append_all(log: Seq<EventView>, es: Seq<NewEvent>) -> Seq<EventView>
    decreases es.len(),
{
    if es.len() == 0 {
        log
    } else {
        appended(append_all(log, es.drop_last()), es.last())
    }
}

/// Two records agree on every field but the answer.
pub open spec fn same_but_answer(a: EventView, b: EventView) -> bool {
    &&& a.ordinal == b.ordinal
    &&& a.tag == b.tag
    &&& a.ext == b.ext
    &&& a.name == b.name
    &&& a.data == b.data
}

/// In a gapless log the ordinals strictly increase along the log.
pub proof fn lemma_gapless_increasing(log: Seq<EventView>)
    requires
        gapless(log),
    ensures
        forall|i: int, j: int| 0 <= i < j < log.len() ==> log[i].ordinal < log[j].ordinal,
{
}

/// Appending any sequence of events keeps the log gapless, leaves the earlier
/// records as they were, and labels the `j`-th new event with the old length
/// plus `j`: ordinals come out strictly increasing, with no repeat and no gap.
pub proof fn lemma_appends_monotonic(log: Seq<EventView>, es: Seq<NewEvent>)
    requires
        gapless(log),
    ensures
        gapless(append_all(log, es)),
        append_all(log, es).len() == log.len() + es.len(),
        append_all(log, es).subrange(0, log.len() as int) == log,
        forall|j: int|
            0 <= j < es.len() ==> (#[trigger] append_all(log, es)[log.len() + j]).ordinal
                == log.len() + j,
    decreases es.len(),
{
    if es.len() > 0 {
        let prev = append_all(log, es.drop_last());
        lemma_appends_monotonic(log, es.drop_last());
        let next = append_all(log, es);
        assert(next == appended(prev, es.last()));
        assert(next.subrange(0, log.len() as int) =~= prev.subrange(0, log.len() as int));
        assert forall|j: int| 0 <= j < es.len() implies (#[trigger] next[log.len() + j]).ordinal
            == log.len() + j by {
            if j < es.len() - 1 {
                assert(next[log.len() + j] == prev[log.len() + j]);
            }
        }
    }
}

/// An append keeps every earlier record exactly as it was.
pub proof fn lemma_append_keeps_records(log: Seq<EventView>, e: NewEvent)
    ensures
        forall|i: int| 0 <= i < log.len() ==> (#[trigger] appended(log, e)[i]) == log[i],
{
}

/// An attach changes no field but the answer, and the answer only of the
/// event it targets.
pub proof fn lemma_attach_keeps_fields(log: Seq<EventView>, k: nat, a: AnswerView)
    requires
        attach_error(log, k).is_none(),
    ensures
        attached(log, k, a).len() == log.len(),
        forall|i: int|
            0 <= i < log.len() ==> same_but_answer(#[trigger] attached(log, k, a)[i], log[i]),
        forall|i: int| 0 <= i < log.len() && i != k ==> (#[trigger] attached(log, k, a)[i]) == log[i],
{
}

/// Once an event has an answer, every later attach to it is rejected with
/// `Conflict`, and neither appends nor further attaches change that answer.
pub proof fn lemma_at_most_one_answer(log: Seq<EventView>, k: nat, a: AnswerView, b: AnswerView, e: NewEvent)
    requires
        attach_error(log, k).is_none(),
    ensures
        attach_error(attached(log, k, a), k) == Some(StoreError::Conflict),
        attached(log, k, a)[k as int].answer == Some(a),
        attach_error(appended(attached(log, k, a), e), k) == Some(StoreError::Conflict),
        appended(attached(log, k, a), e)[k as int].answer == Some(a),
{
}

proof fn lemma_select_all(s: Seq<EventView>)
    ensures
        select(s, false) == s,
    decreases s.len(),
{
    if s.len() > 0 {
        lemma_select_all(s.drop_last());
        assert(s.drop_last().push(s.last()) =~= s);
    }
}

proof fn lemma_select_from(s: Seq<EventView>, external_only: bool)
    ensures
        forall|i: int|
            0 <= i < select(s, external_only).len() ==> s.contains(
                #[trigger] select(s, external_only)[i],
            ) && kept(select(s, external_only)[i], external_only),
    decreases s.len(),
{
    if s.len() > 0 {
        let rest = s.drop_last();
        lemma_select_from(rest, external_only);
        assert forall|i: int|
            0 <= i < select(s, external_only).len() implies s.contains(
                #[trigger] select(s, external_only)[i],
            ) && kept(select(s, external_only)[i], external_only) by {
            if i < select(rest, external_only).len() {
                let x = select(rest, external_only)[i];
                let w = choose|w: int| 0 <= w < rest.len() && rest[w] == x;
                assert(s[w] == x);
            } else {
                assert(s[s.len() - 1] == s.last());
            }
        }
    }
}

/// An unfiltered scan from `k` returns exactly the records from ordinal `k`
/// on, in ascending ordinal order, each at most once.
pub proof fn lemma_scan_consistent(log: Seq<EventView>, k: nat)
    requires
        gapless(log),
    ensures
        k < log.len() ==> scan(log, k, false) == log.subrange(k as int, log.len() as int),
        k >= log.len() ==> scan(log, k, false).len() == 0,
        forall|i: int|
            0 <= i < scan(log, k, false).len() ==> (#[trigger] scan(log, k, false)[i]).ordinal == k
                + i,
{
    if k < log.len() {
        lemma_select_all(log.subrange(k as int, log.len() as int));
    }
}

/// A filtered scan returns only external records, each of which the
/// unfiltered scan from the same ordinal also returns.
pub proof fn lemma_scan_filter(log: Seq<EventView>, k: nat)
    requires
        gapless(log),
    ensures
        forall|i: int|
            0 <= i < scan(log, k, true).len() ==> (#[trigger] scan(log, k, true)[i]).ext && scan(
                log,
                k,
                false,
            ).contains(scan(log, k, true)[i]),
{
    if k < log.len() {
        let s = log.subrange(k as int, log.len() as int);
        lemma_select_all(s);
        lemma_select_from(s, true);
    }
}

} // verus!
