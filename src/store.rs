use vstd::prelude::*;
use crate::model::{Answer, AnswerView, Event, EventView, NewEvent, Ordinal};

verus! {

/// Why the store did not carry out an operation.
#[derive(Clone, Copy, Debug, PartialEq, Eq, Structural)]
pub enum StoreError {
    /// The log cannot take the write (no ordinal is left to assign).
    StorageFailure,
    /// No event has the requested ordinal.
    NotFound,
    /// The event already has an answer, which is kept.
    Conflict,
}

/// Every event sits at the index equal to its ordinal: the ordinals are
/// `0, 1, 2, ...` with no gap and no repeat.
pub open spec fn gapless(log: Seq<EventView>) -> bool {
    forall|i: int| 0 <= i < log.len() ==> (#[trigger] log[i]).ordinal == i
}

/// Whether a scan with the given filter returns `e`.
pub open spec fn kept(e: EventView, external_only: bool) -> bool {
    !external_only || e.ext
}

/// The events of `s` that the filter keeps, in their order in `s`.
pub open spec fn select(s: Seq<EventView>, external_only: bool) -> Seq<EventView>
    decreases s.len(),
{
    if s.len() == 0 {
        Seq::empty()
    } else {
        let rest = select(s.drop_last(), external_only);
        if kept(s.last(), external_only) {
            rest.push(s.last())
        } else {
            rest
        }
    }
}

/// What a scan from `start` returns: the events from that ordinal on, in
/// ascending order, restricted to external ones when `external_only`.
pub open spec fn scan(log: Seq<EventView>, start: nat, external_only: bool) -> Seq<EventView> {
    if start >= log.len() {
        Seq::empty()
    } else {
        select(log.subrange(start as int, log.len() as int), external_only)
    }
}

/// The record that an append of `e` creates at ordinal `ordinal`.
pub open spec fn new_record(e: NewEvent, ordinal: nat) -> EventView {
    EventView {
        ordinal,
        tag: e.tag.0 as nat,
        ext: e.external,
        name: e.name@,
        data: e.data@,
        answer: None,
    }
}

/// The log after a successful append of `e`.
pub open spec fn appended(log: Seq<EventView>, e: NewEvent) -> Seq<EventView> {
    log.push(new_record(e, log.len()))
}

/// Why an attach to ordinal `k` is rejected, if it is.
pub open spec fn attach_error(log: Seq<EventView>, k: nat) -> Option<StoreError> {
    if k >= log.len() {
        Some(StoreError::NotFound)
    } else if log[k as int].answer.is_some() {
        Some(StoreError::Conflict)
    } else {
        None
    }
}

/// The log after a successful attach of `a` to ordinal `k`.
pub open spec fn attached(log: Seq<EventView>, k: nat, a: AnswerView) -> Seq<EventView> {
    log.update(k as int, EventView { answer: Some(a), ..log[k as int] })
}

/// The event log: ordinals are assigned here, in append order.
pub struct EventStore {
    events: Vec<Event>,
}

impl View for EventStore {
    type V = Seq<EventView>;

    closed spec fn view(&self) -> Seq<EventView> {
        self.events@.map_values(|e: Event| e@)
    }
}

impl EventStore {
    /// The store's invariant: ordinals match positions.
    pub open spec fn wf(&self) -> bool {
        gapless(self@)
    }

    /// An empty log.
    pub fn new() -> (r: EventStore)
        ensures
            r.wf(),
            r@ == Seq::<EventView>::empty(),
    {
        let r = EventStore { events: Vec::new() };
        assert(r@ =~= Seq::<EventView>::empty());
        r
    }

    /// The number of events in the log.
    pub fn len(&self) -> (r: usize)
        ensures
            r == self@.len(),
    {
        self.events.len()
    }

    /// The ordinal that the next successful append will assign.
    pub fn next_ordinal(&self) -> (r: Ordinal)
        ensures
            r.0 == self@.len(),
    {
        Ordinal(self.events.len())
    }

    /// Appends `e` under the next ordinal and returns that ordinal. Fails,
    /// leaving the log unchanged, only when no ordinal is left to assign.
    pub fn append(&mut self, e: NewEvent) -> (r: Result<Ordinal, StoreError>)
        requires
            old(self).wf(),
        ensures
            final(self).wf(),
            old(self)@.len() < usize::MAX ==> r == Ok::<Ordinal, StoreError>(Ordinal(old(self)@.len() as usize)),
            old(self)@.len() == usize::MAX ==> r == Err::<Ordinal, StoreError>(StoreError::StorageFailure),
            r.is_ok() ==> final(self)@ == appended(old(self)@, e),
            r.is_err() ==> final(self)@ == old(self)@,
    {
        let n = self.events.len();
        if n == usize::MAX {
            return Err(StoreError::StorageFailure);
        }
        let ghost spec_e = e;
        let ordinal = Ordinal(n);
        let record = Event::from_values(ordinal, e.tag, e.external, e.name, e.data, None);
        self.events.push(record);
        assert(self@ =~= appended(old(self)@, spec_e));
        Ok(ordinal)
    }

    /// The events from ordinal `start` on, in ascending order; only the
    /// external ones when `external_only`.
    pub fn scan_from(&self, start: Ordinal, external_only: bool) -> (r: Vec<Event>)
        requires
            self.wf(),
        ensures
            r@.map_values(|e: Event| e@) == scan(self@, start.0 as nat, external_only),
    {
        let mut r: Vec<Event> = Vec::new();
        let n = self.events.len();
        if start.0 >= n {
            assert(r@.map_values(|e: Event| e@) =~= Seq::<EventView>::empty());
            return r;
        }
        let mut i: usize = start.0;
        while i < n
            invariant
                start.0 <= i <= n,
                n == self@.len(),
                r@.map_values(|e: Event| e@) == select(
                    self@.subrange(start.0 as int, i as int),
                    external_only,
                ),
            decreases n - i,
        {
            let ghost before = r@.map_values(|e: Event| e@);
            let ghost part = self@.subrange(start.0 as int, i as int + 1);
            assert(part.drop_last() =~= self@.subrange(start.0 as int, i as int));
            assert(part.last() == self.events@[i as int]@);
            if !external_only || self.events[i].external() {
                r.push(self.events[i].copy());
                assert(r@.map_values(|e: Event| e@) =~= before.push(part.last()));
            }
            i = i + 1;
        }
        r
    }

    /// Attaches the answer of `name` with `data` to the event at `ordinal`,
    /// if that event exists and has no answer yet.
    pub fn attach(&mut self, ordinal: Ordinal, name: String, data: Vec<u8>) -> (r: Result<
        (),
        StoreError,
    >)
        requires
            old(self).wf(),
        ensures
            final(self).wf(),
            match attach_error(old(self)@, ordinal.0 as nat) {
                Some(err) => r == Err::<(), StoreError>(err) && final(self)@ == old(self)@,
                None => r == Ok::<(), StoreError>(()) && final(self)@ == attached(
                    old(self)@,
                    ordinal.0 as nat,
                    AnswerView { name: name@, data: data@ },
                ),
            },
    {
        let i = ordinal.0;
        if i >= self.events.len() {
            return Err(StoreError::NotFound);
        }
        if self.events[i].answer().is_some() {
            return Err(StoreError::Conflict);
        }
        let answer = Answer { name, data };
        let ghost av = answer@;
        let updated = self.events[i].copy().with_answer(answer);
        self.events.set(i, updated);
        assert(self@ =~= attached(old(self)@, i as nat, av));
        Ok(())
    }
}

} // verus!
