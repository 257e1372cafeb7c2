use event_log::api::{list, reply, submit};
use event_log::auth::{Auth, Claim, TokenParams, VerifyParams};
use event_log::model::{Answer, Event, NewHttpEvent, Ordinal, Tag};
use event_log::store::EventStore;

#[test]
fn http_event_takes_the_given_name() {
    let ev = NewHttpEvent { tag: Tag(4), external: true, data: vec![1, 2] };
    let named = ev.name("alice".to_string());
    assert_eq!(named.tag, Tag(4));
    assert!(named.external);
    assert_eq!(named.name, "alice");
    assert_eq!(named.data, vec![1, 2]);
}

#[test]
fn fresh_keeps_every_field() {
    let e = Event::fresh(Tag(7), "bob".to_string(), vec![9], false);
    assert_eq!(e.tag, Tag(7));
    assert!(!e.external);
    assert_eq!(e.name, "bob");
    assert_eq!(e.data, vec![9]);
}

#[test]
fn from_values_and_copy() {
    let answer = Answer { name: "carol".to_string(), data: vec![3] };
    let e = Event::from_values(Ordinal(5), Tag(6), true, "dave".to_string(), vec![8, 9], Some(answer));
    let c = e.copy();
    for x in [&e, &c] {
        assert_eq!(x.ordinal(), Ordinal(5));
        assert_eq!(x.tag(), Tag(6));
        assert!(x.external());
        assert_eq!(x.name(), "dave");
        assert_eq!(x.data(), &vec![8, 9]);
        let a = x.answer().unwrap();
        assert_eq!(a.name, "carol");
        assert_eq!(a.data, vec![3]);
    }
    let copied = c.answer().unwrap().copy();
    assert_eq!(copied.name, "carol");
}

#[test]
fn with_answer_sets_the_answer() {
    let e = Event::from_values(Ordinal(0), Tag(0), false, "a".to_string(), vec![], None);
    let e = e.with_answer(Answer { name: "b".to_string(), data: vec![1] });
    assert_eq!(e.answer().unwrap().name, "b");
    assert_eq!(e.name(), "a");
}

#[test]
fn auth_and_params_carry_names() {
    let auth = Auth(Claim::new("alice".to_string()));
    assert_eq!(auth.name(), "alice");
    assert_eq!(auth.into_name(), "alice");
    let claim = TokenParams::new("bob".to_string()).into_claim();
    assert_eq!(claim.name, "bob");
    assert_eq!(VerifyParams::new("t".to_string()).token, "t");
}

#[test]
fn submit_uses_the_callers_identity() {
    let mut store = EventStore::new();
    let auth = Auth(Claim::new("alice".to_string()));
    let ev = NewHttpEvent { tag: Tag(1), external: false, data: b"hello".to_vec() };
    assert_eq!(submit(&mut store, auth, ev), Ok(Ordinal(0)));
    let all = list(&store, None);
    assert_eq!(all.len(), 1);
    assert_eq!(all[0].name(), "alice");
    assert_eq!(all[0].data(), &b"hello".to_vec());
}

#[test]
fn list_honours_the_extra_flag() {
    let mut store = EventStore::new();
    let a = Auth(Claim::new("a".to_string()));
    let b = Auth(Claim::new("b".to_string()));
    submit(&mut store, a, NewHttpEvent { tag: Tag(1), external: false, data: vec![] }).unwrap();
    submit(&mut store, b, NewHttpEvent { tag: Tag(2), external: true, data: vec![] }).unwrap();
    assert_eq!(list(&store, None).len(), 2);
    assert_eq!(list(&store, Some(false)).len(), 2);
    let ext = list(&store, Some(true));
    assert_eq!(ext.len(), 1);
    assert_eq!(ext[0].ordinal(), Ordinal(1));
}

#[test]
fn reply_reports_success_once() {
    let mut store = EventStore::new();
    submit(&mut store, Auth(Claim::new("a".to_string())), NewHttpEvent { tag: Tag(1), external: false, data: vec![] })
        .unwrap();
    assert!(reply(&mut store, Auth(Claim::new("carol".to_string())), Ordinal(0), b"hi back".to_vec()));
    assert!(!reply(&mut store, Auth(Claim::new("dave".to_string())), Ordinal(0), b"too late".to_vec()));
    assert!(!reply(&mut store, Auth(Claim::new("dave".to_string())), Ordinal(99), vec![]));
    let all = list(&store, None);
    assert_eq!(all[0].answer().unwrap().name, "carol");
}
