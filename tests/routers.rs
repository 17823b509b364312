use rs_backend::routers::{
    health_check, read_form, reply_after_insert, subscribe, subscribe_with, SubscribeStep,
};

fn some(s: &str) -> Option<String> {
    Some(s.to_string())
}

fn is_random_uuid(id: u128) -> bool {
    (id >> 76) & 0xf == 4 && (id >> 62) & 3 == 2
}

#[test]
fn health_check_is_ok_and_empty() {
    let r = health_check();
    assert_eq!(r.status, 200);
    assert_eq!(r.body.len(), 0);
}

#[test]
fn complete_form_is_stored_once() {
    match subscribe_with(some("le guin"), some("ursula_le_guin@gmail.com"), 7, 1_700_000_000_000_000) {
        SubscribeStep::Insert(s) => {
            assert_eq!(s.id, 7);
            assert_eq!(s.name, "le guin");
            assert_eq!(s.email, "ursula_le_guin@gmail.com");
            assert_eq!(s.subscribed_at, 1_700_000_000_000_000);
        }
        SubscribeStep::Respond(_) => panic!("a complete form was refused"),
    }
    assert_eq!(reply_after_insert(true).status, 200);
}

#[test]
fn incomplete_forms_get_400() {
    let cases = vec![
        (some("le guin"), None, "missing the email"),
        (None, some("ursula_le_guin@gmail.com"), "missing the name"),
        (None, None, "missing both name and email"),
    ];
    for (name, email, what) in cases {
        match subscribe_with(name, email, 1, 2) {
            SubscribeStep::Respond(r) => {
                assert_eq!(r.status, 400, "not refused with 400 when {}", what);
                assert!(r.body.is_empty());
            }
            SubscribeStep::Insert(_) => panic!("stored a form {}", what),
        }
    }
}

#[test]
fn read_form_keeps_fields() {
    let f = read_form(some("a"), some("b@c")).ok().unwrap();
    assert_eq!(f.name, "a");
    assert_eq!(f.email, "b@c");
    assert_eq!(read_form(some("a"), None).err().unwrap().status, 400);
}

#[test]
fn empty_fields_are_present_fields() {
    assert!(matches!(subscribe_with(some(""), some(""), 3, 4), SubscribeStep::Insert(_)));
}

#[test]
fn failed_insert_gets_500_without_detail() {
    let r = reply_after_insert(false);
    assert_eq!(r.status, 500);
    assert!(r.body.is_empty());
}

#[test]
fn two_subscriptions_get_distinct_random_ids() {
    let first = subscribe(some("a"), some("a@example.com"));
    let second = subscribe(some("b"), some("b@example.com"));
    match (first, second) {
        (SubscribeStep::Insert(x), SubscribeStep::Insert(y)) => {
            assert_ne!(x.id, y.id);
            assert!(is_random_uuid(x.id));
            assert!(is_random_uuid(y.id));
            assert!(x.subscribed_at > 0);
            assert_eq!(x.name, "a");
        }
        _ => panic!("a complete form was refused"),
    }
}

#[test]
fn subscribe_refuses_incomplete_form() {
    assert!(matches!(subscribe(None, some("x@y")), SubscribeStep::Respond(_)));
}
