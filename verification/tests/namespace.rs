use ma_runtime::acl::{acl_check, open_acl, Acl, AclEntry, Capabilities};
use ma_runtime::cbor::Term;
use ma_runtime::namespace::{
    acl_cache_key, handle_create_ns, owner_acl, reserved_namespace, CreateAction, CreateError, CreateEvent,
    CreateRequest, CreateSession, DENIED_ERROR, EXISTS_ERROR, RESERVED_ERROR,
};

const IPNS: &str = "k51qzi5uqu5dj9807pbuod1pplf0vxh8m4lfy3ewl9qbm2s8dsf9ugdf9gedhr";

fn caller() -> String {
    format!("did:ma:{IPNS}#agent")
}

fn root_acl_without_create() -> Acl {
    Acl {
        entries: vec![AclEntry {
            principal: "*".to_string(),
            caps: Capabilities::Allow(vec!["rpc".to_string(), "read".to_string()]),
        }],
    }
}

#[test]
fn create_request_needs_empty_tail_and_one_text_argument() {
    let args = vec![Term::Text("music".to_string())];
    assert!(matches!(handle_create_ns(Some(""), &args), CreateRequest::Create(n) if n == "music"));
    assert!(matches!(handle_create_ns(None, &args), CreateRequest::Usage));
    assert!(matches!(handle_create_ns(Some("x"), &args), CreateRequest::Usage));
    assert!(matches!(handle_create_ns(Some(""), &vec![Term::Other]), CreateRequest::Usage));
    assert!(matches!(handle_create_ns(Some(""), &vec![]), CreateRequest::Usage));
    let two = vec![Term::Text("a".to_string()), Term::Text("b".to_string())];
    assert!(matches!(handle_create_ns(Some(""), &two), CreateRequest::Usage));
}

#[test]
fn reserved_names() {
    for n in ["acl", "acls", "protocol", "kinds", "entities", "i18n", "config", "create"] {
        assert!(reserved_namespace(n));
    }
    assert!(!reserved_namespace("music"));
    assert!(!reserved_namespace("ACL"));
}

#[test]
fn owner_acl_grants_creator_everything() {
    let acl = owner_acl(&caller());
    assert_eq!(acl.entries.len(), 1);
    assert_eq!(acl.entries[0].principal, format!("did:ma:{IPNS}"));
    assert!(acl_check(&acl, &caller(), "create").is_ok());
    assert!(acl_check(&acl, &caller(), "anything").is_ok());
}

#[test]
fn cache_key_has_acl_suffix() {
    assert_eq!(acl_cache_key("music"), "music.acl");
}

#[test]
fn successful_creation_flow() {
    let (mut s, a) = CreateSession::start(&open_acl(), &caller(), "music");
    assert!(matches!(a, CreateAction::LoadManifest));
    match s.step(CreateEvent::ManifestLoaded(Ok(false))) {
        CreateAction::StoreAcl(acl) => assert_eq!(acl.entries[0].principal, format!("did:ma:{IPNS}")),
        _ => panic!("expected StoreAcl"),
    }
    match s.step(CreateEvent::AclStored(Ok("bafyacl".to_string()))) {
        CreateAction::PersistManifest { name, acl_cid } => {
            assert_eq!(name, "music");
            assert_eq!(acl_cid, "bafyacl");
        }
        _ => panic!("expected PersistManifest"),
    }
    match s.step(CreateEvent::ManifestPersisted(Ok("bafyroot".to_string()))) {
        CreateAction::WarmCache { key, acl_cid } => {
            assert_eq!(key, "music.acl");
            assert_eq!(acl_cid, "bafyacl");
        }
        _ => panic!("expected WarmCache"),
    }
    match s.step(CreateEvent::CacheWarmed) {
        CreateAction::ReplyOk(root) => assert_eq!(root, "bafyroot"),
        _ => panic!("expected ReplyOk"),
    }
    assert!(matches!(s.step(CreateEvent::Replied(true)), CreateAction::Finish(Ok(()))));
}

#[test]
fn refusals_are_answered_with_their_error_key() {
    let (mut s, a) = CreateSession::start(&root_acl_without_create(), &caller(), "music");
    assert!(matches!(a, CreateAction::ReplyError(k) if k == DENIED_ERROR));
    assert!(matches!(s.step(CreateEvent::Replied(false)), CreateAction::Finish(Err(CreateError::ReplyFailed))));

    let (_, a) = CreateSession::start(&root_acl_without_create(), &caller(), "config");
    assert!(matches!(a, CreateAction::ReplyError(k) if k == DENIED_ERROR));
    let (_, a) = CreateSession::start(&open_acl(), &caller(), "config");
    assert!(matches!(a, CreateAction::ReplyError(k) if k == RESERVED_ERROR));

    let (mut s, _) = CreateSession::start(&open_acl(), &caller(), "music");
    assert!(matches!(s.step(CreateEvent::ManifestLoaded(Ok(true))), CreateAction::ReplyError(k) if k == EXISTS_ERROR));
}

#[test]
fn storage_failures_end_with_errors() {
    let (mut s, _) = CreateSession::start(&open_acl(), &caller(), "music");
    assert!(matches!(s.step(CreateEvent::ManifestLoaded(Err(()))), CreateAction::Finish(Err(CreateError::ManifestLoad))));

    let (mut s, _) = CreateSession::start(&open_acl(), &caller(), "music");
    s.step(CreateEvent::ManifestLoaded(Ok(false)));
    assert!(matches!(s.step(CreateEvent::AclStored(Err(()))), CreateAction::Finish(Err(CreateError::AclStore))));

    let (mut s, _) = CreateSession::start(&open_acl(), &caller(), "music");
    s.step(CreateEvent::ManifestLoaded(Ok(false)));
    s.step(CreateEvent::AclStored(Ok("bafyacl".to_string())));
    assert!(matches!(s.step(CreateEvent::ManifestPersisted(Err(()))), CreateAction::Finish(Err(CreateError::ManifestPersist))));
}
