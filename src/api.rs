use vstd::prelude::*;
use crate::auth::Auth;
use crate::model::{NewEvent, NewHttpEvent, Ordinal};
use crate::store::{appended, attach_error, attached, scan, EventStore, StoreError};
use crate::model::{AnswerView, Event};

verus! {

/// The event that a submission by `auth` of `ev` appends.
pub open spec fn submitted(auth: Auth, ev: NewHttpEvent) -> NewEvent {
    NewEvent { tag: ev.tag, external: ev.external, name: auth.0.name, data: ev.data }
}

/// Appends `ev` in the name of the authenticated caller; the name in the log
/// is the caller's identity, never one from the request.
pub fn submit(store: &mut EventStore, auth: Auth, ev: NewHttpEvent) -> (r: Result<Ordinal, StoreError>)
    requires
        old(store).wf(),
    ensures
        final(store).wf(),
        old(store)@.len() < usize::MAX ==> r == Ok::<Ordinal, StoreError>(Ordinal(old(store)@.len() as usize)),
        old(store)@.len() == usize::MAX ==> r == Err::<Ordinal, StoreError>(StoreError::StorageFailure),
        r.is_ok() ==> final(store)@ == appended(old(store)@, submitted(auth, ev)),
        r.is_err() ==> final(store)@ == old(store)@,
{
    let ghost spec_auth = auth;
    let ghost spec_ev = ev;
    let named = ev.name(auth.into_name());
    proof {
        assert(named.name@ == submitted(spec_auth, spec_ev).name@);
        assert(named.data@ == submitted(spec_auth, spec_ev).data@);
        assert(appended(old(store)@, named) =~= appended(old(store)@, submitted(spec_auth, spec_ev)));
    }
    store.append(named)
}

/// Lists the whole log; `extra` restricts it to external events, and an
/// absent `extra` means no restriction.
pub fn list(store: &EventStore, extra: Option<bool>) -> (r: Vec<Event>)
    requires
        store.wf(),
    ensures
        r@.map_values(|e: Event| e@) == scan(
            store@,
            0,
            match extra {
                Some(b) => b,
                None => false,
            },
        ),
{
    let external_only = match extra {
        Some(b) => b,
        None => false,
    };
    store.scan_from(Ordinal(0), external_only)
}

/// Attaches the caller's answer `data` to the event at `ordinal` and says
/// whether it took effect.
pub fn reply(store: &mut EventStore, auth: Auth, ordinal: Ordinal, data: Vec<u8>) -> (r: bool)
    requires
        old(store).wf(),
    ensures
        final(store).wf(),
        r == attach_error(old(store)@, ordinal.0 as nat).is_none(),
        r ==> final(store)@ == attached(
            old(store)@,
            ordinal.0 as nat,
            AnswerView { name: auth.0.name@, data: data@ },
        ),
        !r ==> final(store)@ == old(store)@,
{
    let name = auth.into_name();
    store.attach(ordinal, name, data).is_ok()
}

} // verus!
