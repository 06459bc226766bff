use ma_runtime::did::{did_base_id, did_id, parse_did, sender_entity_url};

const IPNS: &str = "k51qzi5uqu5dj9807pbuod1pplf0vxh8m4lfy3ewl9qbm2s8dsf9ugdf9gedhr";

#[test]
fn parses_bare_did_and_url() {
    let bare = parse_did(&format!("did:ma:{IPNS}")).expect("bare");
    assert_eq!(bare.ipns, IPNS);
    assert_eq!(bare.fragment, None);
    let url = parse_did(&format!("did:ma:{IPNS}#lobby")).expect("url");
    assert_eq!(url.ipns, IPNS);
    assert_eq!(url.fragment.as_deref(), Some("lobby"));
}

#[test]
fn rejects_malformed_dids() {
    assert!(parse_did("").is_none());
    assert!(parse_did(IPNS).is_none());
    assert!(parse_did(&format!("did:ma:{IPNS}#a#b")).is_none());
    assert!(parse_did(&format!("did:ma:{IPNS}#")).is_none());
}

#[test]
fn builds_ids_and_entity_urls() {
    let url = parse_did(&format!("did:ma:{IPNS}#lobby")).unwrap();
    assert_eq!(did_base_id(&url), format!("did:ma:{IPNS}"));
    assert_eq!(did_id(&url), format!("did:ma:{IPNS}#lobby"));
    assert_eq!(sender_entity_url(&url, "ping"), format!("did:ma:{IPNS}#ping"));
}
