use ma_runtime::acl::{open_acl, Acl, AclEntry, AclError, Capabilities};
use ma_runtime::cbor::encode_text;
use ma_runtime::rpc::{plan_rpc_reply, pong_result, RpcError, RpcPlan, MESSAGE_TYPE_RPC};

const OUR_DID: &str = "did:ma:k51qzi5uqu5dkkciu33khkzbcmxtyhn376i1e83tya8kuy7z9euedzyr5nhoew";
const MSG_ID: &str = "msg-1";

const IPNS: &str = "k51qzi5uqu5dj9807pbuod1pplf0vxh8m4lfy3ewl9qbm2s8dsf9ugdf9gedhr";

fn sender() -> String {
    format!("did:ma:{IPNS}#agent")
}

fn plan_rpc_reply_from(acl: &Acl, from: &str, message_type: &str, content: &[u8]) -> RpcPlan {
    plan_rpc_reply(acl, OUR_DID, MSG_ID, from, message_type, content)
}

#[test]
fn ping_is_answered_with_pong_to_ping_entity() {
    let plan = plan_rpc_reply_from(&open_acl(), &sender(), MESSAGE_TYPE_RPC, &encode_text(":ping"));
    match plan {
        RpcPlan::Pong { recipient, reply } => {
            assert_eq!(recipient, format!("did:ma:{IPNS}"));
            assert_eq!(reply.from, OUR_DID);
            assert_eq!(reply.to, format!("did:ma:{IPNS}#ping"));
            assert_eq!(reply.message_type, "application/vnd.ma.rpc.reply");
            assert_eq!(reply.content_type, "application/cbor");
            assert_eq!(reply.content, vec![0x65, b':', b'p', b'o', b'n', b'g']);
            assert_eq!(reply.reply_to, MSG_ID);
        }
        _ => panic!("expected a pong"),
    }
}

#[test]
fn other_atoms_are_ignored() {
    let plan = plan_rpc_reply_from(&open_acl(), &sender(), MESSAGE_TYPE_RPC, &encode_text(":hello"));
    assert!(matches!(plan, RpcPlan::Ignore));
    let plan = plan_rpc_reply_from(&open_acl(), &sender(), MESSAGE_TYPE_RPC, &[0x01]);
    assert!(matches!(plan, RpcPlan::Ignore));
}

#[test]
fn wrong_message_type_is_rejected() {
    let plan = plan_rpc_reply_from(&open_acl(), &sender(), "application/vnd.ma.chat", &encode_text(":ping"));
    assert!(matches!(plan, RpcPlan::Reject(RpcError::UnsupportedType)));
}

#[test]
fn invalid_cbor_is_rejected() {
    let plan = plan_rpc_reply_from(&open_acl(), &sender(), MESSAGE_TYPE_RPC, &[0xff, 0xff]);
    assert!(matches!(plan, RpcPlan::Reject(RpcError::InvalidCbor)));
}

#[test]
fn denied_or_invalid_sender_is_rejected_first() {
    let acl = Acl { entries: vec![AclEntry { principal: "*".to_string(), caps: Capabilities::Deny }] };
    let plan = plan_rpc_reply_from(&acl, &sender(), "bogus", &[0xff]);
    assert!(matches!(plan, RpcPlan::Reject(RpcError::Acl(AclError::Denied))));
    let plan = plan_rpc_reply_from(&open_acl(), "someone", MESSAGE_TYPE_RPC, &encode_text(":ping"));
    assert!(matches!(plan, RpcPlan::Reject(RpcError::Acl(AclError::InvalidSender))));
}

#[test]
fn unreachable_sender_is_no_error_but_failed_send_is() {
    assert!(pong_result(false, false) == Ok(()));
    assert!(pong_result(true, true) == Ok(()));
    assert!(pong_result(true, false) == Err(RpcError::SendFailed));
}
