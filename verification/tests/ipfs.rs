use ma_runtime::acl::{open_acl, Acl, AclEntry, AclError, Capabilities};
use ma_runtime::ipfs::{
    capability_for, classify_request, ok_reply_content, IpfsAction, IpfsError, IpfsEvent, IpfsRequestKind,
    IpfsSession, IpfsStage, MESSAGE_TYPE_IDENTITY_PUBLISH_REQUEST, MESSAGE_TYPE_IPFS_REQUEST,
};

const IPNS: &str = "k51qzi5uqu5dj9807pbuod1pplf0vxh8m4lfy3ewl9qbm2s8dsf9ugdf9gedhr";
const OUR_DID: &str = "did:ma:k51qzi5uqu5dkkciu33khkzbcmxtyhn376i1e83tya8kuy7z9euedzyr5nhoew";
const MSG_ID: &str = "msg-7";
const CID: &str = "bafkreigh2akiscaildcqabsyg3dfr6chu3fgpregiymsck7e7aqa4s52zy";

fn sender() -> String {
    format!("did:ma:{IPNS}#agent")
}

#[test]
fn classifies_requests_and_their_capabilities() {
    assert!(classify_request(MESSAGE_TYPE_IPFS_REQUEST) == Some(IpfsRequestKind::Store));
    assert!(classify_request(MESSAGE_TYPE_IDENTITY_PUBLISH_REQUEST) == Some(IpfsRequestKind::IdentityPublish));
    assert!(classify_request("application/vnd.ma.chat").is_none());
    assert_eq!(capability_for(IpfsRequestKind::Store), "ipfs");
    assert_eq!(capability_for(IpfsRequestKind::IdentityPublish), "identity-publish");
}

#[test]
fn ok_reply_is_cbor_array_of_ok_and_cid() {
    let mut expected = vec![0x82, 0x63, b':', b'o', b'k', 0x78, CID.len() as u8];
    expected.extend_from_slice(CID.as_bytes());
    assert_eq!(ok_reply_content(CID), expected);
}

#[test]
fn store_request_runs_to_a_reply() {
    let (mut s, a) = IpfsSession::start(&open_acl(), OUR_DID, MSG_ID, &sender(), MESSAGE_TYPE_IPFS_REQUEST);
    assert!(matches!(a, IpfsAction::CheckReplay));
    assert!(matches!(s.step(IpfsEvent::ReplayChecked(true)), IpfsAction::Validate(IpfsRequestKind::Store)));
    assert!(matches!(s.step(IpfsEvent::Validated(true)), IpfsAction::Store));
    match s.step(IpfsEvent::Addressed(Ok(Some(CID.to_string())))) {
        IpfsAction::OpenOutbox(r) => assert_eq!(r, format!("did:ma:{IPNS}")),
        _ => panic!("expected an outbox"),
    }
    match s.step(IpfsEvent::OutboxOpened(true)) {
        IpfsAction::Send(reply) => {
            assert_eq!(reply.from, OUR_DID);
            assert_eq!(reply.to, format!("did:ma:{IPNS}#rpc"));
            assert_eq!(reply.message_type, "application/vnd.ma.rpc.reply");
            assert_eq!(reply.content_type, "application/cbor");
            assert_eq!(reply.content, ok_reply_content(CID));
            assert_eq!(reply.reply_to, MSG_ID);
        }
        _ => panic!("expected a send"),
    }
    assert!(matches!(s.step(IpfsEvent::Sent(true)), IpfsAction::Finish(Ok(()))));
    assert!(s.stage == IpfsStage::Finished);
}

#[test]
fn publish_request_publishes() {
    let (mut s, _) = IpfsSession::start(&open_acl(), OUR_DID, MSG_ID, &sender(), MESSAGE_TYPE_IDENTITY_PUBLISH_REQUEST);
    s.step(IpfsEvent::ReplayChecked(true));
    assert!(matches!(s.step(IpfsEvent::Validated(true)), IpfsAction::Publish));
    assert!(matches!(s.step(IpfsEvent::Addressed(Err(()))), IpfsAction::Finish(Err(IpfsError::PublishFailed))));
}

#[test]
fn each_failure_has_its_error() {
    let (mut s, a) = IpfsSession::start(&open_acl(), OUR_DID, MSG_ID, &sender(), "application/vnd.ma.chat");
    assert!(matches!(a, IpfsAction::CheckReplay));
    assert!(matches!(s.step(IpfsEvent::ReplayChecked(true)), IpfsAction::Finish(Err(IpfsError::UnknownType))));
    let none = Acl { entries: vec![AclEntry { principal: "*".to_string(), caps: Capabilities::Allow(vec!["rpc".to_string()]) }] };
    let (_, a) = IpfsSession::start(&none, OUR_DID, MSG_ID, &sender(), "application/vnd.ma.chat");
    assert!(matches!(a, IpfsAction::Finish(Err(IpfsError::Acl(AclError::Denied)))));

    let acl = Acl { entries: vec![AclEntry { principal: "*".to_string(), caps: Capabilities::Allow(vec!["ipfs".to_string()]) }] };
    let (_, a) = IpfsSession::start(&acl, OUR_DID, MSG_ID, &sender(), MESSAGE_TYPE_IDENTITY_PUBLISH_REQUEST);
    assert!(matches!(a, IpfsAction::Finish(Err(IpfsError::Acl(AclError::Denied)))));
    let (_, a) = IpfsSession::start(&acl, OUR_DID, MSG_ID, "nobody", MESSAGE_TYPE_IPFS_REQUEST);
    assert!(matches!(a, IpfsAction::Finish(Err(IpfsError::Acl(AclError::InvalidSender)))));

    let (mut s, a) = IpfsSession::start(&acl, OUR_DID, MSG_ID, &sender(), MESSAGE_TYPE_IPFS_REQUEST);
    assert!(matches!(a, IpfsAction::CheckReplay));
    assert!(matches!(s.step(IpfsEvent::ReplayChecked(false)), IpfsAction::Finish(Err(IpfsError::Replay))));

    let (mut s, _) = IpfsSession::start(&acl, OUR_DID, MSG_ID, &sender(), MESSAGE_TYPE_IPFS_REQUEST);
    s.step(IpfsEvent::ReplayChecked(true));
    assert!(matches!(s.step(IpfsEvent::Validated(false)), IpfsAction::Finish(Err(IpfsError::InvalidRequest))));

    let (mut s, _) = IpfsSession::start(&acl, OUR_DID, MSG_ID, &sender(), MESSAGE_TYPE_IPFS_REQUEST);
    s.step(IpfsEvent::ReplayChecked(true));
    s.step(IpfsEvent::Validated(true));
    assert!(matches!(s.step(IpfsEvent::Addressed(Err(()))), IpfsAction::Finish(Err(IpfsError::StoreFailed))));

    let (mut s, _) = IpfsSession::start(&acl, OUR_DID, MSG_ID, &sender(), MESSAGE_TYPE_IPFS_REQUEST);
    s.step(IpfsEvent::ReplayChecked(true));
    s.step(IpfsEvent::Validated(true));
    assert!(matches!(s.step(IpfsEvent::Addressed(Ok(None))), IpfsAction::Finish(Err(IpfsError::NoCid))));

    let (mut s, _) = IpfsSession::start(&acl, OUR_DID, MSG_ID, &sender(), MESSAGE_TYPE_IPFS_REQUEST);
    s.step(IpfsEvent::ReplayChecked(true));
    s.step(IpfsEvent::Validated(true));
    s.step(IpfsEvent::Addressed(Ok(Some(CID.to_string()))));
    s.step(IpfsEvent::OutboxOpened(true));
    assert!(matches!(s.step(IpfsEvent::Sent(false)), IpfsAction::Finish(Err(IpfsError::SendFailed))));
}

#[test]
fn unreachable_sender_ends_without_error() {
    let (mut s, _) = IpfsSession::start(&open_acl(), OUR_DID, MSG_ID, &sender(), MESSAGE_TYPE_IPFS_REQUEST);
    s.step(IpfsEvent::ReplayChecked(true));
    s.step(IpfsEvent::Validated(true));
    s.step(IpfsEvent::Addressed(Ok(Some(CID.to_string()))));
    assert!(matches!(s.step(IpfsEvent::OutboxOpened(false)), IpfsAction::Finish(Ok(()))));
}
