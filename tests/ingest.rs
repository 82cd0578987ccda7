use chest::classify::{classify, find_e_reference, Category};
use chest::coordinator::{expansion_session, initial_sessions, IngestConfig};
use chest::event::NostrEvent;
use chest::filter::{build_filter, filter_with_id, kind_filter, scoped_filter};
use chest::session::{RelaySession, SessionAction, SessionInput, SessionState};
use chest::store::{make_record, ClassifiedRecord, RecordStore};
use chest::wire::{decimal_string, encode_req, encode_tags, req_from_quoted};

fn s(x: &str) -> String {
    x.to_string()
}

fn tags(list: &[&[&str]]) -> Vec<Vec<String>> {
    list.iter().map(|t| t.iter().map(|x| s(x)).collect()).collect()
}

fn event(id: &str, pubkey: &str, created_at: u64, kind: u64, t: Vec<Vec<String>>, content: &str) -> NostrEvent {
    NostrEvent::new(s(id), s(pubkey), created_at, kind, t, s(content), s("s"))
}

fn class_of(e: &NostrEvent) -> Option<(Category, Option<String>)> {
    classify(e).map(|c| (c.category, c.reference))
}

fn live_session(expands: bool) -> RelaySession {
    let mut session = if expands {
        RelaySession::primary(s("wss://relay.example"), &vec![1, 30023])
    } else {
        RelaySession::secondary(s("wss://relay.example"), scoped_filter(s("e1")))
    };
    session.step(SessionInput::Start);
    session.step(SessionInput::Connected);
    session.step(SessionInput::FilterSent);
    session
}

fn stored(acts: Vec<SessionAction>) -> Vec<ClassifiedRecord> {
    acts.into_iter()
        .filter_map(|a| match a {
            SessionAction::Store(r) => Some(r),
            _ => None,
        })
        .collect()
}

#[test]
fn note_with_e_tag_is_reply() {
    let e = event("r1", "p", 1, 1, tags(&[&["p", "x"], &["e", "parent", "wss://r"]]), "");
    assert_eq!(class_of(&e), Some((Category::Reply, Some(s("parent")))));
}

#[test]
fn note_without_e_tag_is_note() {
    let e = event("n1", "p", 1, 1, tags(&[&["p", "x"]]), "");
    assert_eq!(class_of(&e), Some((Category::Note, None)));
    let bare_e = event("n2", "p", 1, 1, tags(&[&["e"]]), "");
    assert_eq!(class_of(&bare_e), Some((Category::Note, None)));
}

#[test]
fn only_first_e_tag_counts() {
    let e = event("n3", "p", 1, 1, tags(&[&["e"], &["e", "later"]]), "");
    assert_eq!(class_of(&e), Some((Category::Note, None)));
    let two = event("n4", "p", 1, 1, tags(&[&["e", "first"], &["e", "second"]]), "");
    assert_eq!(class_of(&two), Some((Category::Reply, Some(s("first")))));
    assert_eq!(find_e_reference(&tags(&[&["E", "no"], &["e", "yes"]])), Some(s("yes")));
    assert_eq!(find_e_reference(&tags(&[])), None);
}

#[test]
fn reaction_needs_e_reference() {
    let kept = event("r", "p", 1, 7, tags(&[&["e", "target"]]), "+");
    assert_eq!(class_of(&kept), Some((Category::Reaction, Some(s("target")))));
    let bare = event("r", "p", 1, 7, tags(&[&["e"]]), "+");
    assert_eq!(class_of(&bare), None);
}

#[test]
fn metadata_ignores_its_tags() {
    let e = event("m", "p", 1, 0, tags(&[&["e", "x"]]), "{}");
    assert_eq!(class_of(&e), Some((Category::UserMetadata, None)));
}

#[test]
fn long_form_kinds() {
    for kind in [30023u64, 30024] {
        let e = event("l", "p", 1, kind, tags(&[&["e", "x"]]), "");
        assert_eq!(class_of(&e), Some((Category::LongForm, None)));
    }
}

#[test]
fn zaps_with_and_without_reference() {
    let with = event("z", "p", 1, 9735, tags(&[&["e", "t"]]), "");
    assert_eq!(class_of(&with), Some((Category::Zap, Some(s("t")))));
    let without = event("z", "p", 1, 9734, tags(&[]), "");
    assert_eq!(class_of(&without), Some((Category::Zap, None)));
}

#[test]
fn other_kinds_are_dropped() {
    for kind in [2u64, 6, 9733, 30022, 30025, u64::MAX] {
        let e = event("o", "p", 1, kind, tags(&[&["e", "t"]]), "");
        assert_eq!(class_of(&e), None);
    }
}

#[test]
fn put_twice_stores_once() {
    let mut store = RecordStore::new();
    let first = make_record(event("e1", "pk1", 100, 1, tags(&[]), "hi")).unwrap();
    let second = make_record(event("e1", "pk9", 200, 1, tags(&[]), "other")).unwrap();
    assert!(store.put(first));
    assert!(!store.put(second));
    assert_eq!(store.len(), 1);
    let kept = store.get_by_identity(Category::Note, &s("e1")).unwrap();
    assert_eq!(kept.event.content, "hi");
    assert_eq!(kept.event.pubkey, "pk1");
}

#[test]
fn identical_event_resubmitted() {
    let mut store = RecordStore::new();
    let e = || event("e1", "pk1", 100, 1, tags(&[]), "hi");
    assert!(store.put(make_record(e()).unwrap()));
    let size = store.len();
    assert!(!store.put(make_record(e()).unwrap()));
    assert_eq!(store.len(), size);
    assert!(store.contains_id(&s("e1")));
    assert!(!store.contains_id(&s("e2")));
}

#[test]
fn lookups_by_identity_and_reference() {
    let mut store = RecordStore::new();
    store.put(make_record(event("m1", "alice", 1, 0, tags(&[]), "{}")).unwrap());
    store.put(make_record(event("n1", "alice", 2, 1, tags(&[]), "note")).unwrap());
    store.put(make_record(event("r1", "bob", 3, 7, tags(&[&["e", "n1"]]), "+")).unwrap());
    store.put(make_record(event("r2", "carol", 4, 7, tags(&[&["e", "n1"]]), "-")).unwrap());
    store.put(make_record(event("r3", "dave", 5, 7, tags(&[&["e", "zz"]]), "+")).unwrap());
    store.put(make_record(event("c1", "erin", 6, 1, tags(&[&["e", "n1"]]), "reply")).unwrap());

    let user = store.get_by_identity(Category::UserMetadata, &s("alice")).unwrap();
    assert_eq!(user.event.id, "m1");
    assert!(store.get_by_identity(Category::UserMetadata, &s("m1")).is_none());
    assert_eq!(store.get_by_identity(Category::Note, &s("n1")).unwrap().event.content, "note");
    assert!(store.get_by_identity(Category::Note, &s("r1")).is_none());

    let reactions = store.list_by_reference(Category::Reaction, &s("n1"));
    let ids: Vec<&str> = reactions.iter().map(|r| r.event.id.as_str()).collect();
    assert_eq!(ids, vec!["r1", "r2"]);
    let replies = store.list_by_reference(Category::Reply, &s("n1"));
    assert_eq!(replies.len(), 1);
    assert_eq!(replies[0].event.id, "c1");
    assert!(store.list_by_reference(Category::Zap, &s("n1")).is_empty());
}

#[test]
fn note_expands_to_one_scoped_filter() {
    let mut session = live_session(true);
    let acts = session.step(SessionInput::Received(event("abc", "p", 1, 1, tags(&[]), "hi")));
    assert_eq!(acts.len(), 2);
    let expansions: Vec<&SessionAction> =
        acts.iter().filter(|a| matches!(a, SessionAction::Expand(_))).collect();
    assert_eq!(expansions.len(), 1);
    match &acts[1] {
        SessionAction::Expand(f) => {
            assert_eq!(f.kinds, vec![7, 9734, 9735]);
            assert_eq!(f.target, Some(s("abc")));
            let child = expansion_session(&session, scoped_filter(s("abc")));
            assert_eq!(child.relay_url, session.relay_url);
            assert!(!child.expands);
            assert_eq!(child.state, SessionState::Disconnected);
        }
        _ => panic!("expected an expansion"),
    }
}

#[test]
fn reply_and_secondary_do_not_expand() {
    let mut session = live_session(true);
    let acts = session.step(SessionInput::Received(event("r", "p", 1, 1, tags(&[&["e", "x"]]), "")));
    assert_eq!(acts.len(), 1);
    assert!(matches!(acts[0], SessionAction::Store(_)));
    let mut secondary = live_session(false);
    let acts = secondary.step(SessionInput::Received(event("n", "p", 1, 1, tags(&[]), "")));
    assert_eq!(acts.len(), 1);
    let long = session.step(SessionInput::Received(event("l", "p", 1, 30023, tags(&[]), "")));
    assert_eq!(long.len(), 2);
}

#[test]
fn end_to_end_note_then_reaction() {
    let mut store = RecordStore::new();
    let mut primary = live_session(true);
    let note = event("e1", "pk1", 100, 1, vec![], "hi");
    let acts = primary.step(SessionInput::Received(note));
    let filter = match &acts[1] {
        SessionAction::Expand(f) => filter_with_id(f.subscription_id.clone(), f.kinds.clone(), f.target.clone()),
        _ => panic!("expected an expansion"),
    };
    for r in stored(acts) {
        assert!(store.put(r));
    }
    let rec = store.get_by_identity(Category::Note, &s("e1")).unwrap();
    assert_eq!(rec.category, Category::Note);
    assert_eq!(rec.reference, None);

    let mut secondary = expansion_session(&primary, filter);
    assert_eq!(secondary.step(SessionInput::Start).len(), 1);
    assert_eq!(secondary.step(SessionInput::Connected).len(), 1);
    secondary.step(SessionInput::FilterSent);
    let reaction = event("e2", "pk2", 101, 7, tags(&[&["e", "e1"]]), "+");
    for r in stored(secondary.step(SessionInput::Received(reaction))) {
        assert!(store.put(r));
    }
    let rec = store.get_by_identity(Category::Reaction, &s("e2")).unwrap();
    assert_eq!(rec.category, Category::Reaction);
    assert_eq!(rec.reference, Some(s("e1")));
    assert_eq!(store.len(), 2);
}

#[test]
fn reaction_without_e_tag_is_dropped() {
    let mut store = RecordStore::new();
    let mut session = live_session(true);
    let acts = session.step(SessionInput::Received(event("e3", "p", 1, 7, vec![], "")));
    assert_eq!(acts.len(), 1);
    match &acts[0] {
        SessionAction::Dropped(id) => assert_eq!(id, "e3"),
        _ => panic!("expected a drop"),
    }
    for r in stored(acts) {
        store.put(r);
    }
    assert_eq!(store.len(), 0);
}

#[test]
fn session_lifecycle() {
    let mut session = RelaySession::primary(s("wss://r"), &vec![1, 30023, 30024]);
    assert_eq!(session.state, SessionState::Disconnected);
    assert!(session.step(SessionInput::Received(event("x", "p", 1, 1, vec![], ""))).is_empty());
    let acts = session.step(SessionInput::Start);
    assert!(matches!(acts[..], [SessionAction::Open]));
    assert_eq!(session.state, SessionState::Connecting);
    assert!(session.step(SessionInput::Start).is_empty());
    let acts = session.step(SessionInput::Connected);
    let idx: Vec<usize> = acts
        .iter()
        .map(|a| match a {
            SessionAction::SendFilter(i) => *i,
            _ => usize::MAX,
        })
        .collect();
    assert_eq!(idx, vec![0, 1, 2]);
    assert_eq!(session.state, SessionState::Connecting);
    session.step(SessionInput::FilterSent);
    assert_eq!(session.state, SessionState::Subscribed);
    session.step(SessionInput::Ignored);
    assert_eq!(session.state, SessionState::Streaming);
    let acts = session.step(SessionInput::AddFilter(kind_filter(0)));
    assert!(matches!(acts[..], [SessionAction::SendFilter(3)]));
    assert_eq!(session.filters.len(), 4);
    assert_eq!(session.state, SessionState::Streaming);
    session.step(SessionInput::Malformed);
    assert_eq!(session.state, SessionState::Closed);
    assert!(session.step(SessionInput::AddFilter(kind_filter(1))).is_empty());
    assert_eq!(session.filters.len(), 4);
    session.step(SessionInput::Start);
    assert_eq!(session.state, SessionState::Closed);
}

#[test]
fn failures_close_the_session() {
    let mut a = RelaySession::primary(s("wss://r"), &vec![1]);
    a.step(SessionInput::Start);
    a.step(SessionInput::ConnectFailed);
    assert_eq!(a.state, SessionState::Closed);
    let mut b = live_session(true);
    b.step(SessionInput::Ended);
    assert_eq!(b.state, SessionState::Closed);
    let mut c = RelaySession::primary(s("wss://r"), &vec![1]);
    c.step(SessionInput::Start);
    c.step(SessionInput::Connected);
    c.step(SessionInput::SendFailed);
    assert_eq!(c.state, SessionState::Closed);
}

#[test]
fn initial_sessions_per_relay_and_kind() {
    let config = IngestConfig { relay_urls: vec![s("wss://a"), s("wss://b")], kinds: vec![1, 30023, 30024] };
    let sessions = initial_sessions(&config);
    assert_eq!(sessions.len(), 2);
    assert_eq!(sessions[1].relay_url, "wss://b");
    for session in &sessions {
        assert!(session.expands);
        assert_eq!(session.filters.len(), 3);
        assert_eq!(session.filters[2].kinds, vec![30024]);
        assert_eq!(session.filters[0].target, None);
    }
    let empty = initial_sessions(&IngestConfig { relay_urls: vec![], kinds: vec![1] });
    assert!(empty.is_empty());
}

#[test]
fn filters_and_their_wire_text() {
    let plain = filter_with_id(s("sub1"), vec![1], None);
    assert_eq!(encode_req(&plain), r#"["REQ","sub1",{"kinds":[1]}]"#);
    let scoped = filter_with_id(s("sub2"), vec![1, 2], Some(s("abc")));
    assert_eq!(scoped.kinds, vec![7, 9734, 9735]);
    assert_eq!(encode_req(&scoped), r##"["REQ","sub2",{"#e":["abc"],"kinds":[7,9734,9735]}]"##);
    let many = filter_with_id(s("q\"x"), vec![0, 30023, 18446744073709551615], None);
    assert_eq!(
        encode_req(&many),
        r#"["REQ","q\"x",{"kinds":[0,30023,18446744073709551615]}]"#
    );
    let none = filter_with_id(s("s"), vec![], None);
    assert_eq!(encode_req(&none), r#"["REQ","s",{"kinds":[]}]"#);
    assert_eq!(req_from_quoted("\"i\"", &vec![5], Some("\"t\"")), r##"["REQ","i",{"#e":["t"],"kinds":[5]}]"##);
}

#[test]
fn fresh_subscription_ids() {
    let a = build_filter(vec![1], None);
    let b = build_filter(vec![1], None);
    assert_eq!(a.subscription_id.len(), 36);
    assert_ne!(a.subscription_id, b.subscription_id);
    let text = encode_req(&a);
    assert!(text.contains(&a.subscription_id));
    let c = scoped_filter(s("n"));
    assert_eq!(c.kinds, vec![7, 9734, 9735]);
}

#[test]
fn stored_row_shape() {
    let rec = make_record(event("r1", "bob", 3, 7, tags(&[&["e", "n1"], &["p", "a\"b"]]), "+")).unwrap();
    let row = rec.to_row();
    assert_eq!(row.event_id, "r1");
    assert_eq!(row.pubkey, "bob");
    assert_eq!(row.created_at, 3);
    assert_eq!(row.kind, 7);
    assert_eq!(row.content, "+");
    assert_eq!(row.sig, "s");
    assert_eq!(row.tags, r#"[["e","n1"],["p","a\"b"]]"#);
    assert_eq!(row.folder, "reactions");
    assert_eq!(row.ref_event, Some(s("n1")));
    assert_eq!(encode_tags(&vec![]), "[]");
}

#[test]
fn folder_names() {
    let all = [
        (Category::UserMetadata, "users"),
        (Category::Note, "notes"),
        (Category::Reply, "replies"),
        (Category::Reaction, "reactions"),
        (Category::Zap, "zaps"),
        (Category::LongForm, "long"),
    ];
    for (c, name) in all {
        assert_eq!(c.label(), name);
        assert_eq!(Category::from_label(name), Some(c));
        assert_eq!(c.keyed_by_author(), c == Category::UserMetadata);
    }
    assert_eq!(Category::from_label("note"), None);
    assert_eq!(Category::listing_from_label("replies"), Some(Category::Reply));
    assert_eq!(Category::listing_from_label("zaps"), Some(Category::Zap));
    assert_eq!(Category::listing_from_label("notes"), None);
    assert_eq!(Category::listing_from_label("bogus"), None);
    assert!(Category::Note.is_primary() && Category::LongForm.is_primary());
    assert!(!Category::Reply.is_primary());
}

#[test]
fn escaping_in_wire_text() {
    let f = filter_with_id(s("a\\b\n\t\r\u{8}\u{c}\u{1}\u{1f}/é"), vec![1], Some(s("x\"y")));
    assert_eq!(
        encode_req(&f),
        r##"["REQ","a\\b\n\t\r\b\f\u0001\u001f/é",{"#e":["x\"y"],"kinds":[7,9734,9735]}]"##
    );
    assert_eq!(encode_tags(&tags(&[&[], &["e", "q\""], &["p"]])), r#"[[],["e","q\""],["p"]]"#);
}

#[test]
fn decimal_numerals() {
    assert_eq!(decimal_string(0), "0");
    assert_eq!(decimal_string(9), "9");
    assert_eq!(decimal_string(10), "10");
    assert_eq!(decimal_string(9735), "9735");
    assert_eq!(decimal_string(u64::MAX), "18446744073709551615");
}

#[test]
fn two_relays_expand_independently() {
    let mut a = RelaySession::primary(s("wss://a"), &vec![1]);
    let mut b = RelaySession::primary(s("wss://b"), &vec![1]);
    let mut store = RecordStore::new();
    let mut children = Vec::new();
    for session in [&mut a, &mut b] {
        session.step(SessionInput::Start);
        session.step(SessionInput::Connected);
        session.step(SessionInput::FilterSent);
        let acts = session.step(SessionInput::Received(event("abc", "pk", 1, 1, vec![], "")));
        let mut expansions = 0;
        for act in acts {
            match act {
                SessionAction::Expand(f) => {
                    expansions += 1;
                    assert!(encode_req(&f).ends_with(r##",{"#e":["abc"],"kinds":[7,9734,9735]}]"##));
                    children.push(expansion_session(session, f));
                }
                SessionAction::Store(r) => {
                    store.put(r);
                }
                _ => {}
            }
        }
        assert_eq!(expansions, 1);
    }
    let urls: Vec<&str> = children.iter().map(|c| c.relay_url.as_str()).collect();
    assert_eq!(urls, vec!["wss://a", "wss://b"]);
    let mut puts = Vec::new();
    for child in children.iter_mut() {
        child.step(SessionInput::Start);
        child.step(SessionInput::Connected);
        child.step(SessionInput::FilterSent);
        let reaction = event("re", "pk", 2, 7, tags(&[&["e", "abc"]]), "+");
        for r in stored(child.step(SessionInput::Received(reaction))) {
            puts.push(store.put(r));
        }
    }
    assert_eq!(puts, vec![true, false]);
    assert_eq!(store.list_by_reference(Category::Reaction, &s("abc")).len(), 1);
    assert_eq!(store.len(), 2);
}
