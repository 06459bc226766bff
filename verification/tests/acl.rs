use ma_runtime::acl::{
    acl_check, acl_from_yaml, acl_origin, open_acl, Acl, AclEntry, AclError, AclOrigin, Capabilities, CAP_RPC,
};

const IPNS: &str = "k51qzi5uqu5dj9807pbuod1pplf0vxh8m4lfy3ewl9qbm2s8dsf9ugdf9gedhr";

fn bare() -> String {
    format!("did:ma:{IPNS}")
}

fn url() -> String {
    format!("did:ma:{IPNS}#lobby")
}

fn allow(principal: &str, caps: &[&str]) -> AclEntry {
    AclEntry {
        principal: principal.to_string(),
        caps: Capabilities::Allow(caps.iter().map(|c| c.to_string()).collect()),
    }
}

fn deny(principal: &str) -> AclEntry {
    AclEntry { principal: principal.to_string(), caps: Capabilities::Deny }
}

#[test]
fn wildcard_grants_rpc_to_any_valid_sender() {
    let acl = Acl { entries: vec![allow("*", &["rpc"])] };
    assert!(acl_check(&acl, &bare(), CAP_RPC) == Ok(()));
    assert!(acl_check(&acl, &url(), CAP_RPC) == Ok(()));
}

#[test]
fn wildcard_without_capability_denies() {
    let acl = Acl { entries: vec![allow("*", &["inbox"])] };
    assert!(acl_check(&acl, &bare(), CAP_RPC) == Err(AclError::Denied));
}

#[test]
fn invalid_sender_is_refused() {
    let acl = open_acl();
    assert!(acl_check(&acl, "not-a-did", CAP_RPC) == Err(AclError::InvalidSender));
    assert!(acl_check(&acl, "did:ma:k51qzi5uqu5abc", CAP_RPC) == Err(AclError::InvalidSender));
    assert!(acl_check(&acl, &format!("did:ma:{IPNS}#has space"), CAP_RPC) == Err(AclError::InvalidSender));
}

#[test]
fn explicit_deny_wins_over_wildcard() {
    let acl = Acl { entries: vec![allow("*", &["*"]), deny(&bare())] };
    assert!(acl_check(&acl, &bare(), CAP_RPC) == Err(AclError::Denied));
    assert!(acl_check(&acl, &url(), "anything") == Err(AclError::Denied));
}

#[test]
fn fragment_does_not_change_the_decision() {
    let acl = Acl { entries: vec![allow(&bare(), &["rpc"])] };
    assert!(acl_check(&acl, &bare(), CAP_RPC) == Ok(()));
    assert!(acl_check(&acl, &url(), CAP_RPC) == Ok(()));
    assert!(acl_check(&acl, &url(), "ipfs") == Err(AclError::Denied));
}

#[test]
fn empty_acl_denies_everyone() {
    let acl = Acl { entries: vec![] };
    assert!(acl_check(&acl, &bare(), CAP_RPC) == Err(AclError::Denied));
}

#[test]
fn direct_entry_restricts_below_wildcard() {
    let acl = Acl { entries: vec![allow("*", &["rpc", "ipfs"]), allow(&bare(), &["rpc"])] };
    assert!(acl_check(&acl, &bare(), "rpc") == Ok(()));
    assert!(acl_check(&acl, &bare(), "ipfs") == Err(AclError::Denied));
}

#[test]
fn later_entry_replaces_earlier_one() {
    let acl = Acl { entries: vec![deny(&bare()), allow(&bare(), &["rpc"])] };
    assert!(acl_check(&acl, &bare(), "rpc") == Ok(()));
}

#[test]
fn open_acl_admits_every_capability() {
    let acl = open_acl();
    assert!(acl_check(&acl, &bare(), "rpc") == Ok(()));
    assert!(acl_check(&acl, &url(), "identity-publish") == Ok(()));
}

#[test]
fn acl_origin_prefers_explicit_file() {
    assert!(acl_origin(true, true) == AclOrigin::ExplicitFile);
    assert!(acl_origin(true, false) == AclOrigin::ExplicitFile);
    assert!(acl_origin(false, true) == AclOrigin::DefaultFile);
    assert!(acl_origin(false, false) == AclOrigin::Open);
}

#[test]
fn wildcard_deny_refuses_unlisted_senders_only() {
    let acl = Acl { entries: vec![deny("*"), allow(&bare(), &["rpc"])] };
    assert!(acl_check(&acl, &url(), CAP_RPC) == Ok(()));
    let other = "did:ma:k51qzi5uqu5dkkciu33khkzbcmxtyhn376i1e83tya8kuy7z9euedzyr5nhoew";
    assert!(acl_check(&acl, other, CAP_RPC) == Err(AclError::Denied));
}

#[test]
fn acl_document_is_read_from_yaml() {
    let yaml = format!("acl:\n  \"*\": [rpc]\n  \"did:ma:{IPNS}\":\n");
    let acl = acl_from_yaml(&yaml).expect("valid ACL document");
    assert_eq!(acl.entries.len(), 2);
    assert!(acl_check(&acl, &url(), CAP_RPC) == Err(AclError::Denied));
    let other = "did:ma:k51qzi5uqu5dkkciu33khkzbcmxtyhn376i1e83tya8kuy7z9euedzyr5nhoew";
    assert!(acl_check(&acl, other, CAP_RPC) == Ok(()));
    assert!(acl_check(&acl, other, "ipfs") == Err(AclError::Denied));
}

#[test]
fn malformed_acl_documents_are_refused() {
    assert!(acl_from_yaml("acl: [unclosed").is_none());
    assert!(acl_from_yaml("acl:\n  \"\": [rpc]\n").is_none());
    assert!(acl_from_yaml("acl: 5\n").is_none());
}
