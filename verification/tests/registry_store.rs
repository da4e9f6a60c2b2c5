use passepartout::events::EventSink;
use passepartout::password_store::RequestOutcome;
use passepartout::registry::{OpId, OpKind, Registry};
use passepartout::{PasswordInfo, PasswordStore};

fn id(kind: OpKind, pass_id: &str) -> OpId {
    OpId::new(kind, pass_id.to_string())
}

#[test]
fn two_rapid_begins_grant_exactly_one() {
    let mut registry = Registry::new();
    let first = registry.try_begin(id(OpKind::CopyPassword, "email/personal"));
    let second = registry.try_begin(id(OpKind::CopyPassword, "email/personal"));
    assert!(first);
    assert!(!second);
}

#[test]
fn begin_after_complete_is_granted() {
    let mut registry = Registry::new();
    assert!(registry.try_begin(id(OpKind::FetchOtp, "x")));
    registry.complete(&id(OpKind::FetchOtp, "x"));
    assert!(registry.try_begin(id(OpKind::FetchOtp, "x")));
}

#[test]
fn different_identities_do_not_block_each_other() {
    let mut registry = Registry::new();
    assert!(registry.try_begin(id(OpKind::CopyPassword, "a")));
    assert!(registry.try_begin(id(OpKind::CopyLogin, "a")));
    assert!(registry.try_begin(id(OpKind::CopyPassword, "b")));
    assert!(!registry.try_begin(id(OpKind::CopyPassword, "a")));
}

#[test]
fn hundred_requests_launch_once() {
    let catalog = vec![PasswordInfo::new("email/personal".to_string())];
    let mut store = PasswordStore::new(catalog);
    let mut sink = EventSink::new();
    let mut started: usize = 0;
    let mut duplicates: usize = 0;
    for _ in 0..100 {
        match store.request(OpKind::FetchOtp, "email/personal".to_string(), &mut sink) {
            RequestOutcome::Started { .. } => started += 1,
            RequestOutcome::Duplicate => duplicates += 1,
            RequestOutcome::UnknownEntry => panic!("the entry is in the catalog"),
        }
    }
    assert_eq!(started, 1);
    assert_eq!(duplicates, 99);
    assert_eq!(sink.len(), 1);
}

#[test]
fn unknown_identifier_fails_without_side_effects() {
    let catalog = vec![PasswordInfo::new("known".to_string())];
    let mut store = PasswordStore::new(catalog);
    let mut sink = EventSink::new();
    let r = store.request(OpKind::CopyPassword, "unknown".to_string(), &mut sink);
    assert!(matches!(r, RequestOutcome::UnknownEntry));
    assert_eq!(sink.len(), 0);
    let granted = store.request(OpKind::CopyPassword, "known".to_string(), &mut sink);
    assert!(matches!(granted, RequestOutcome::Started { .. }));
}

#[test]
fn complete_reopens_the_identity() {
    let catalog = vec![PasswordInfo::new("a".to_string())];
    let mut store = PasswordStore::new(catalog);
    let mut sink = EventSink::new();
    assert!(matches!(
        store.copy_password("a".to_string(), &mut sink),
        RequestOutcome::Started { .. }
    ));
    assert!(matches!(store.copy_password("a".to_string(), &mut sink), RequestOutcome::Duplicate));
    store.complete(OpKind::CopyPassword, "a".to_string());
    assert!(matches!(
        store.copy_password("a".to_string(), &mut sink),
        RequestOutcome::Started { .. }
    ));
}

#[test]
fn store_methods_derive_distinct_identities() {
    let catalog = vec![PasswordInfo::new("a".to_string())];
    let mut store = PasswordStore::new(catalog);
    let mut sink = EventSink::new();
    assert!(matches!(
        store.copy_password("a".to_string(), &mut sink),
        RequestOutcome::Started { .. }
    ));
    assert!(matches!(store.copy_login("a".to_string(), &mut sink), RequestOutcome::Started { .. }));
    assert!(matches!(store.copy_otp("a".to_string(), &mut sink), RequestOutcome::Started { .. }));
    assert!(matches!(store.fetch_otp("a".to_string(), &mut sink), RequestOutcome::Started { .. }));
    assert!(matches!(
        store.fetch_entry("a".to_string(), &mut sink),
        RequestOutcome::Started { .. }
    ));
}

#[test]
fn started_request_carries_the_argument_vector() {
    let catalog = vec![PasswordInfo::new("web/mail".to_string())];
    let mut store = PasswordStore::new(catalog);
    let mut sink = EventSink::new();
    match store.copy_otp("web/mail".to_string(), &mut sink) {
        RequestOutcome::Started { args, capture } => {
            assert_eq!(args, vec!["otp", "code", "web/mail", "--clip"]);
            assert!(!capture);
        },
        _ => panic!("the first request must be granted"),
    }
    match store.fetch_entry("web/mail".to_string(), &mut sink) {
        RequestOutcome::Started { args, capture } => {
            assert_eq!(args, vec!["web/mail"]);
            assert!(capture);
        },
        _ => panic!("the first request must be granted"),
    }
}
