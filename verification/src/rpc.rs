//! The RPC service (`/ma/rpc/0.0.1`): a `:ping` atom from an admitted sender
//! is answered with a `:pong` atom sent to the sender's `#ping` entity; any
//! other well-formed atom is ignored.

use vstd::prelude::*;
use crate::acl::{acl_check, sender_admitted, Acl, AclError, CAP_RPC};
use crate::cbor::{cbor_decode, cbor_text, decode_term, encode_text, Term, TermView};
use crate::did::{did_base_id, did_parse, did_text, parse_did, sender_entity_url};
use crate::text::str_eq;

verus! {

/// The protocol of the RPC service.
pub const RPC_PROTOCOL_ID: &'static str = "/ma/rpc/0.0.1";
/// The message type of an RPC request.
pub const MESSAGE_TYPE_RPC: &'static str = "application/vnd.ma.rpc";
/// The message type of an RPC reply.
pub const MESSAGE_TYPE_RPC_REPLY: &'static str = "application/vnd.ma.rpc.reply";
/// The content type of CBOR-encoded replies.
pub const CONTENT_TYPE_CBOR: &'static str = "application/cbor";
/// The atom that asks for a pong.
pub const PING_ATOM: &'static str = ":ping";
/// The atom that answers a ping.
pub const PONG_ATOM: &'static str = ":pong";
/// The fragment of the sender entity that receives pongs.
pub const PING_FRAGMENT: &'static str = "ping";

/// Why an RPC message was rejected.
#[derive(PartialEq, Eq, Structural)]
pub enum RpcError {
    /// The access-control list refused the sender.
    Acl(AclError),
    /// The message is not of type [`MESSAGE_TYPE_RPC`].
    UnsupportedType,
    /// The content is not CBOR.
    InvalidCbor,
    /// The pong could not be sent.
    SendFailed,
}

/// A reply message before it is signed: its sender, address, message type,
/// content type, content and the id of the message it answers.
pub struct Reply {
    pub from: String,
    pub to: String,
    pub message_type: String,
    pub content_type: String,
    pub content: Vec<u8>,
    pub reply_to: String,
}

/// Whether `r` is the RPC reply from `from` to `to` with the CBOR `content`,
/// answering the message `reply_to`.
pub open spec fn is_rpc_reply(r: Reply, from: Seq<char>, to: Seq<char>, content: Seq<u8>, reply_to: Seq<char>) -> bool {
    &&& r.from@ == from
    &&& r.to@ == to
    &&& r.message_type@ == MESSAGE_TYPE_RPC_REPLY@
    &&& r.content_type@ == CONTENT_TYPE_CBOR@
    &&& r.content@ == content
    &&& r.reply_to@ == reply_to
}

/// The RPC reply from `from` to `to` with the CBOR `content`, answering the
/// message whose id is `reply_to`.
pub fn rpc_reply(from: &str, to: String, content: Vec<u8>, reply_to: &str) -> (r: Reply)
    ensures
        is_rpc_reply(r, from@, to@, content@, reply_to@),
{
    Reply {
        from: from.to_owned(),
        to,
        message_type: MESSAGE_TYPE_RPC_REPLY.to_owned(),
        content_type: CONTENT_TYPE_CBOR.to_owned(),
        content,
        reply_to: reply_to.to_owned(),
    }
}

/// What to do with an RPC message.
pub enum RpcPlan {
    /// Reject the message with an error.
    Reject(RpcError),
    /// Accept the message and answer nothing: it is not a ping.
    Ignore,
    /// Count a ping and send the pong `reply`, reaching the endpoint of
    /// `recipient` on the RPC protocol.
    Pong { recipient: String, reply: Reply },
}

/// The plan for a message from `from` of type `message_type` whose content
/// decodes to `term` (`None`: not CBOR).
pub open spec fn rpc_plan_spec(
    acl: Map<Seq<char>, Option<Set<Seq<char>>>>,
    from: Seq<char>,
    message_type: Seq<char>,
    term: Option<TermView>,
) -> RpcOutcome {
    if !sender_admitted(acl, from, CAP_RPC@) {
        RpcOutcome::Reject
    } else if message_type != MESSAGE_TYPE_RPC@ {
        RpcOutcome::Reject
    } else if term is None {
        RpcOutcome::Reject
    } else if term != Some(TermView::Text(PING_ATOM@)) {
        RpcOutcome::Ignore
    } else {
        RpcOutcome::Pong
    }
}

/// What an RPC message gets: a sender the ACL does not admit for `rpc` is
/// always rejected, whatever the message; a pong comes exactly for a `:ping`
/// text atom of type `application/vnd.ma.rpc` from an admitted sender; any
/// other CBOR content of that type from an admitted sender is ignored.
pub proof fn lemma_rpc_decisions(
    acl: Map<Seq<char>, Option<Set<Seq<char>>>>,
    from: Seq<char>,
    message_type: Seq<char>,
    term: Option<TermView>,
)
    ensures
        !sender_admitted(acl, from, "rpc"@) ==> rpc_plan_spec(acl, from, message_type, term)
            == RpcOutcome::Reject,
        (rpc_plan_spec(acl, from, message_type, term) == RpcOutcome::Pong) <==> (sender_admitted(
            acl,
            from,
            "rpc"@,
        ) && message_type == "application/vnd.ma.rpc"@ && term == Some(TermView::Text(":ping"@))),
        (rpc_plan_spec(acl, from, message_type, term) == RpcOutcome::Ignore) <==> (sender_admitted(
            acl,
            from,
            "rpc"@,
        ) && message_type == "application/vnd.ma.rpc"@ && term is Some && term != Some(
            TermView::Text(":ping"@),
        )),
{
}

/// The kind of an [`RpcPlan`].
pub enum RpcOutcome {
    Reject,
    Ignore,
    Pong,
}

/// The kind of a plan.
pub open spec fn outcome(plan: RpcPlan) -> RpcOutcome {
    match plan {
        RpcPlan::Reject(_) => RpcOutcome::Reject,
        RpcPlan::Ignore => RpcOutcome::Ignore,
        RpcPlan::Pong { .. } => RpcOutcome::Pong,
    }
}

/// Decides how to answer an RPC message: the sender must be admitted for
/// `"rpc"`, the message must be of type [`MESSAGE_TYPE_RPC`], its content
/// must be CBOR; a `:ping` text atom is answered with a `:pong` text atom
/// sent by `our_did` to the sender's `#ping` entity in reply to the message
/// `message_id`; anything else is ignored.
pub fn plan_rpc_reply(
    acl: &Acl,
    our_did: &str,
    message_id: &str,
    from: &str,
    message_type: &str,
    content: &[u8],
) -> (plan: RpcPlan)
    ensures
        outcome(plan) == rpc_plan_spec(acl@, from@, message_type@, cbor_decode(content@)),
        plan matches RpcPlan::Reject(e) ==> {
            &&& !sender_admitted(acl@, from@, CAP_RPC@) ==> (e == RpcError::Acl(
                if did_parse(from@) is None { AclError::InvalidSender } else { AclError::Denied },
            ))
            &&& sender_admitted(acl@, from@, CAP_RPC@) && message_type@ != MESSAGE_TYPE_RPC@
                ==> e == RpcError::UnsupportedType
            &&& sender_admitted(acl@, from@, CAP_RPC@) && message_type@ == MESSAGE_TYPE_RPC@
                ==> e == RpcError::InvalidCbor
        },
        plan matches RpcPlan::Pong { recipient, reply } ==> {
            &&& did_parse(from@) matches Some((ipns, _))
            &&& recipient@ == did_text(ipns, None)
            &&& is_rpc_reply(
                reply,
                our_did@,
                did_text(ipns, Some(PING_FRAGMENT@)),
                cbor_text(PONG_ATOM@),
                message_id@,
            )
        },
{
    match acl_check(acl, from, CAP_RPC) {
        Err(e) => {
            return RpcPlan::Reject(RpcError::Acl(e));
        },
        Ok(()) => {},
    }
    if !str_eq(message_type, MESSAGE_TYPE_RPC) {
        return RpcPlan::Reject(RpcError::UnsupportedType);
    }
    let term = match decode_term(content) {
        None => {
            return RpcPlan::Reject(RpcError::InvalidCbor);
        },
        Some(t) => t,
    };
    let is_ping = match &term {
        Term::Text(s) => str_eq(s.as_str(), PING_ATOM),
        Term::Other => false,
    };
    if !is_ping {
        return RpcPlan::Ignore;
    }
    let pong = encode_text(PONG_ATOM);
    match parse_did(from) {
        Some(sender) => {
            let recipient = did_base_id(&sender);
            let to = sender_entity_url(&sender, PING_FRAGMENT);
            RpcPlan::Pong { recipient, reply: rpc_reply(our_did, to, pong, message_id) }
        },
        None => {
            // An admitted sender always parses.
            RpcPlan::Reject(RpcError::Acl(AclError::InvalidSender))
        },
    }
}

/// The result of answering a ping, after trying to open an outbox to the
/// sender and, where one opened, sending the pong: an unreachable sender is
/// no error, a failed send is.
pub fn pong_result(outbox_opened: bool, delivered: bool) -> (r: Result<(), RpcError>)
    ensures
        r == if outbox_opened && !delivered { Err(RpcError::SendFailed) } else { Ok::<(), RpcError>(()) },
{
    if outbox_opened && !delivered {
        Err(RpcError::SendFailed)
    } else {
        Ok(())
    }
}

} // verus!
