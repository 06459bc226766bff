//! The IPFS publisher service (`/ma/ipfs/0.0.1`).
//!
//! A request goes through a fixed sequence: admission (message type and
//! access control), the replay check, validation, the IPFS work (publishing
//! a DID document or storing content), and a `[":ok", <cid>]` reply sent to
//! the sender's `#rpc` entity over the RPC protocol. The network work is done
//! by the caller; [`IpfsSession`] decides, after each outcome, what comes
//! next.

use vstd::prelude::*;
use crate::acl::{acl_check, sender_admitted, Acl, AclError};
use crate::cbor::{cbor_text_array, encode_text_array, strings_view};
use crate::did::{did_base_id, did_parse, did_text, parse_did, sender_entity_url};
use crate::rpc::{is_rpc_reply, rpc_reply, Reply};
use crate::text::str_eq;

verus! {

/// The protocol of the IPFS publisher service.
pub const IPFS_PROTOCOL_ID: &'static str = "/ma/ipfs/0.0.1";
/// The message type of a DID-document publish request.
pub const MESSAGE_TYPE_IDENTITY_PUBLISH_REQUEST: &'static str = "application/vnd.ma.identity.publish.request";
/// The message type of a content-store request.
pub const MESSAGE_TYPE_IPFS_REQUEST: &'static str = "application/vnd.ma.ipfs.request";
/// The capability that guards DID-document publishing.
pub const CAP_IDENTITY_PUBLISH: &'static str = "identity-publish";
/// The capability that guards content storing.
pub const CAP_IPFS: &'static str = "ipfs";
/// The atom that starts a successful reply.
pub const OK_ATOM: &'static str = ":ok";
/// The fragment of the sender entity that receives replies.
pub const REPLY_FRAGMENT: &'static str = "rpc";

/// The two requests of the service.
#[derive(PartialEq, Eq, Structural, Clone, Copy)]
pub enum IpfsRequestKind {
    /// Publish a signed DID document under the sender's IPNS name.
    IdentityPublish,
    /// Store content in IPFS.
    Store,
}

/// Why a request was refused or failed.
#[derive(PartialEq, Eq, Structural)]
pub enum IpfsError {
    /// The message type names neither request.
    UnknownType,
    /// The access-control list refused the sender.
    Acl(AclError),
    /// The message was seen before, or its headers are invalid.
    Replay,
    /// The request does not validate.
    InvalidRequest,
    /// Publishing the DID document failed.
    PublishFailed,
    /// The publisher returned no CID.
    NoCid,
    /// Storing the content failed.
    StoreFailed,
    /// The reply could not be sent.
    SendFailed,
}

/// The outcome of a step that the caller performed.
pub enum IpfsEvent {
    /// The replay guard accepted the message (`true`) or refused it.
    ReplayChecked(bool),
    /// The request validated (`true`) or not.
    Validated(bool),
    /// The IPFS work failed (`Err`), or returned a CID or none.
    Addressed(Result<Option<String>, ()>),
    /// An outbox to the recipient was opened (`true`) or could not be.
    OutboxOpened(bool),
    /// The reply was delivered (`true`) or sending failed.
    Sent(bool),
}

/// What the caller is to do next.
pub enum IpfsAction {
    /// Check the message against the replay guard.
    CheckReplay,
    /// Validate the request.
    Validate(IpfsRequestKind),
    /// Publish the validated DID document.
    Publish,
    /// Store the validated content.
    Store,
    /// Open an outbox to the bare DID `recipient` on the RPC protocol.
    OpenOutbox(String),
    /// Send this reply.
    Send(Reply),
    /// The request is handled, with this result.
    Finish(Result<(), IpfsError>),
}

/// Where a request stands.
#[derive(PartialEq, Eq, Structural, Clone, Copy)]
pub enum IpfsStage {
    AwaitReplay,
    AwaitValidation,
    AwaitCid,
    AwaitOutbox,
    AwaitSend,
    Finished,
}

/// The handling of one request.
pub struct IpfsSession {
    pub stage: IpfsStage,
    /// The request the message type names, if any.
    pub kind: Option<IpfsRequestKind>,
    /// The sender.
    pub from: String,
    /// The runtime's own DID, the sender of the reply.
    pub our_did: String,
    /// The id of the request message.
    pub message_id: String,
    /// The reply's address, recipient and content, once the CID is known.
    pub reply_address: String,
    pub reply_recipient: String,
    pub reply_content: Vec<u8>,
}

/// The request that a message type names.
pub open spec fn request_kind(message_type: Seq<char>) -> Option<IpfsRequestKind> {
    if message_type == MESSAGE_TYPE_IDENTITY_PUBLISH_REQUEST@ {
        Some(IpfsRequestKind::IdentityPublish)
    } else if message_type == MESSAGE_TYPE_IPFS_REQUEST@ {
        Some(IpfsRequestKind::Store)
    } else {
        None
    }
}

/// The capability that guards a request.
pub open spec fn request_capability(kind: IpfsRequestKind) -> Seq<char> {
    match kind {
        IpfsRequestKind::IdentityPublish => CAP_IDENTITY_PUBLISH@,
        IpfsRequestKind::Store => CAP_IPFS@,
    }
}

/// The content of the reply that announces `cid`: `[":ok", cid]`.
pub open spec fn ok_reply(cid: Seq<char>) -> Seq<u8> {
    cbor_text_array(seq![OK_ATOM@, cid])
}

/// Classifies a message by its type.
pub fn classify_request(message_type: &str) -> (kind: Option<IpfsRequestKind>)
    ensures
        kind == request_kind(message_type@),
{
    if str_eq(message_type, MESSAGE_TYPE_IDENTITY_PUBLISH_REQUEST) {
        Some(IpfsRequestKind::IdentityPublish)
    } else if str_eq(message_type, MESSAGE_TYPE_IPFS_REQUEST) {
        Some(IpfsRequestKind::Store)
    } else {
        None
    }
}

/// The capability that guards a request.
pub fn capability_for(kind: IpfsRequestKind) -> (cap: &'static str)
    ensures
        cap@ == request_capability(kind),
{
    match kind {
        IpfsRequestKind::IdentityPublish => CAP_IDENTITY_PUBLISH,
        IpfsRequestKind::Store => CAP_IPFS,
    }
}

/// The CBOR content `[":ok", cid]` of a successful reply.
pub fn ok_reply_content(cid: &str) -> (content: Vec<u8>)
    ensures
        content@ == ok_reply(cid@),
{
    let mut items: Vec<String> = Vec::new();
    items.push(OK_ATOM.to_owned());
    items.push(cid.to_owned());
    proof {
        assert(strings_view(items@) =~= seq![OK_ATOM@, cid@]);
    }
    encode_text_array(&items)
}

/// Whether the sender is admitted to the service for a request of `kind`:
/// for a known request, it holds that request's capability; for a message
/// type that names none, it holds one of the service's capabilities.
pub open spec fn service_admitted(
    acl: Map<Seq<char>, Option<Set<Seq<char>>>>,
    from: Seq<char>,
    kind: Option<IpfsRequestKind>,
) -> bool {
    match kind {
        Some(k) => sender_admitted(acl, from, request_capability(k)),
        None => sender_admitted(acl, from, CAP_IPFS@) || sender_admitted(acl, from, CAP_IDENTITY_PUBLISH@),
    }
}

/// Each request is admitted by its own capability and by no other: a
/// DID-document publish exactly when the sender holds `identity-publish`, a
/// content store exactly when it holds `ipfs`.
pub proof fn lemma_request_admission(acl: Map<Seq<char>, Option<Set<Seq<char>>>>, from: Seq<char>)
    ensures
        service_admitted(acl, from, request_kind("application/vnd.ma.identity.publish.request"@))
            == sender_admitted(acl, from, "identity-publish"@),
        service_admitted(acl, from, request_kind("application/vnd.ma.ipfs.request"@))
            == sender_admitted(acl, from, "ipfs"@),
{
    reveal_strlit("application/vnd.ma.identity.publish.request");
    reveal_strlit("application/vnd.ma.ipfs.request");
    assert("application/vnd.ma.ipfs.request"@ != "application/vnd.ma.identity.publish.request"@) by {
        assert("application/vnd.ma.ipfs.request"@.len() != "application/vnd.ma.identity.publish.request"@.len());
    }
}

impl IpfsSession {
    /// A session past admission has a parsable sender, and one past the
    /// replay check a known request.
    pub open spec fn wf(&self) -> bool {
        &&& self.stage != IpfsStage::Finished ==> did_parse(self.from@) is Some
        &&& self.stage != IpfsStage::Finished && self.stage != IpfsStage::AwaitReplay ==> self.kind is Some
    }

    /// Whether `event` is the outcome that the current stage awaits.
    pub open spec fn awaits(&self, event: IpfsEvent) -> bool {
        match (self.stage, event) {
            (IpfsStage::AwaitReplay, IpfsEvent::ReplayChecked(_)) => true,
            (IpfsStage::AwaitValidation, IpfsEvent::Validated(_)) => true,
            (IpfsStage::AwaitCid, IpfsEvent::Addressed(_)) => true,
            (IpfsStage::AwaitOutbox, IpfsEvent::OutboxOpened(_)) => true,
            (IpfsStage::AwaitSend, IpfsEvent::Sent(_)) => true,
            _ => false,
        }
    }

    /// Admits the message `message_id` from `from` of type `message_type`,
    /// addressed to the runtime `our_did`: the ACL must admit the sender to
    /// the service ([`service_admitted`]); the replay check comes next.
    pub fn start(acl: &Acl, our_did: &str, message_id: &str, from: &str, message_type: &str) -> (res: (
        IpfsSession,
        IpfsAction,
    ))
        ensures
            res.0.wf(),
            res.0.from@ == from@,
            res.0.our_did@ == our_did@,
            res.0.message_id@ == message_id@,
            res.0.kind == request_kind(message_type@),
            !service_admitted(acl@, from@, request_kind(message_type@)) ==> res.0.stage == IpfsStage::Finished
                && res.1 == IpfsAction::Finish(Err(IpfsError::Acl(
                if did_parse(from@) is None { AclError::InvalidSender } else { AclError::Denied },
            ))),
            service_admitted(acl@, from@, request_kind(message_type@)) ==> res.0.stage == IpfsStage::AwaitReplay
                && res.1 == IpfsAction::CheckReplay,
    {
        let kind = classify_request(message_type);
        let admitted = match kind {
            Some(k) => acl_check(acl, from, capability_for(k)),
            None => match acl_check(acl, from, CAP_IPFS) {
                Ok(()) => Ok(()),
                Err(_) => acl_check(acl, from, CAP_IDENTITY_PUBLISH),
            },
        };
        let stage = match admitted {
            Ok(()) => IpfsStage::AwaitReplay,
            Err(_) => IpfsStage::Finished,
        };
        let session = IpfsSession {
            stage,
            kind,
            from: from.to_owned(),
            our_did: our_did.to_owned(),
            message_id: message_id.to_owned(),
            reply_address: String::new(),
            reply_recipient: String::new(),
            reply_content: Vec::new(),
        };
        match admitted {
            Ok(()) => (session, IpfsAction::CheckReplay),
            Err(e) => (session, IpfsAction::Finish(Err(IpfsError::Acl(e)))),
        }
    }

    /// Takes the outcome of the step the caller performed and says what
    /// comes next: a refused replay check ends the request with an error, as
    /// does then a message type that names no request, or a failed
    /// validation; after validation the document is published or the content
    /// stored; a failed or CID-less result ends with an error; with a CID,
    /// the reply `[":ok", cid]` goes from the runtime to the sender's `#rpc`
    /// entity, answering the request. An outbox that cannot be opened ends
    /// the request without error; a failed send ends it with an error.
    pub fn step(&mut self, event: IpfsEvent) -> (action: IpfsAction)
        requires
            old(self).wf(),
            old(self).awaits(event),
        ensures
            final(self).wf(),
            final(self).kind == old(self).kind,
            final(self).from == old(self).from,
            final(self).our_did == old(self).our_did,
            final(self).message_id == old(self).message_id,
            match (old(self).stage, event) {
                (IpfsStage::AwaitReplay, IpfsEvent::ReplayChecked(fresh)) => if !fresh {
                    final(self).stage == IpfsStage::Finished
                        && action == IpfsAction::Finish(Err(IpfsError::Replay))
                } else {
                    match old(self).kind {
                        None => final(self).stage == IpfsStage::Finished
                            && action == IpfsAction::Finish(Err(IpfsError::UnknownType)),
                        Some(k) => final(self).stage == IpfsStage::AwaitValidation
                            && action == IpfsAction::Validate(k),
                    }
                },
                (IpfsStage::AwaitValidation, IpfsEvent::Validated(valid)) => if !valid {
                    final(self).stage == IpfsStage::Finished
                        && action == IpfsAction::Finish(Err(IpfsError::InvalidRequest))
                } else {
                    final(self).stage == IpfsStage::AwaitCid && action == match old(self).kind {
                        Some(IpfsRequestKind::IdentityPublish) => IpfsAction::Publish,
                        _ => IpfsAction::Store,
                    }
                },
                (IpfsStage::AwaitCid, IpfsEvent::Addressed(outcome)) => match outcome {
                    Err(()) => final(self).stage == IpfsStage::Finished && action
                        == IpfsAction::Finish(Err(match old(self).kind {
                        Some(IpfsRequestKind::IdentityPublish) => IpfsError::PublishFailed,
                        _ => IpfsError::StoreFailed,
                    })),
                    Ok(None) => final(self).stage == IpfsStage::Finished
                        && action == IpfsAction::Finish(Err(IpfsError::NoCid)),
                    Ok(Some(cid)) => {
                        &&& final(self).stage == IpfsStage::AwaitOutbox
                        &&& did_parse(old(self).from@) matches Some((ipns, _))
                        &&& final(self).reply_recipient@ == did_text(ipns, None)
                        &&& final(self).reply_address@ == did_text(ipns, Some(REPLY_FRAGMENT@))
                        &&& final(self).reply_content@ == ok_reply(cid@)
                        &&& action == IpfsAction::OpenOutbox(final(self).reply_recipient)
                    },
                },
                (IpfsStage::AwaitOutbox, IpfsEvent::OutboxOpened(opened)) => if opened {
                    &&& final(self).stage == IpfsStage::AwaitSend
                    &&& action matches IpfsAction::Send(reply)
                    &&& is_rpc_reply(
                        reply,
                        old(self).our_did@,
                        old(self).reply_address@,
                        old(self).reply_content@,
                        old(self).message_id@,
                    )
                } else {
                    final(self).stage == IpfsStage::Finished && action == IpfsAction::Finish(Ok(()))
                },
                (IpfsStage::AwaitSend, IpfsEvent::Sent(delivered)) => final(self).stage
                    == IpfsStage::Finished && action == IpfsAction::Finish(
                    if delivered { Ok(()) } else { Err(IpfsError::SendFailed) },
                ),
                _ => false,
            },
    {
        match event {
            IpfsEvent::ReplayChecked(fresh) => {
                if !fresh {
                    self.stage = IpfsStage::Finished;
                    IpfsAction::Finish(Err(IpfsError::Replay))
                } else {
                    match self.kind {
                        None => {
                            self.stage = IpfsStage::Finished;
                            IpfsAction::Finish(Err(IpfsError::UnknownType))
                        },
                        Some(k) => {
                            self.stage = IpfsStage::AwaitValidation;
                            IpfsAction::Validate(k)
                        },
                    }
                }
            },
            IpfsEvent::Validated(valid) => {
                if valid {
                    self.stage = IpfsStage::AwaitCid;
                    match self.kind {
                        Some(IpfsRequestKind::IdentityPublish) => IpfsAction::Publish,
                        _ => IpfsAction::Store,
                    }
                } else {
                    self.stage = IpfsStage::Finished;
                    IpfsAction::Finish(Err(IpfsError::InvalidRequest))
                }
            },
            IpfsEvent::Addressed(outcome) => {
                match outcome {
                    Err(()) => {
                        self.stage = IpfsStage::Finished;
                        IpfsAction::Finish(Err(match self.kind {
                            Some(IpfsRequestKind::IdentityPublish) => IpfsError::PublishFailed,
                            _ => IpfsError::StoreFailed,
                        }))
                    },
                    Ok(None) => {
                        self.stage = IpfsStage::Finished;
                        IpfsAction::Finish(Err(IpfsError::NoCid))
                    },
                    Ok(Some(cid)) => {
                        match parse_did(self.from.as_str()) {
                            Some(sender) => {
                                self.reply_recipient = did_base_id(&sender);
                                self.reply_address = sender_entity_url(&sender, REPLY_FRAGMENT);
                                self.reply_content = ok_reply_content(cid.as_str());
                                self.stage = IpfsStage::AwaitOutbox;
                                IpfsAction::OpenOutbox(self.reply_recipient.clone())
                            },
                            None => {
                                // A session past admission has a parsable sender.
                                self.stage = IpfsStage::Finished;
                                IpfsAction::Finish(Err(IpfsError::Acl(AclError::InvalidSender)))
                            },
                        }
                    },
                }
            },
            IpfsEvent::OutboxOpened(opened) => {
                if opened {
                    self.stage = IpfsStage::AwaitSend;
                    IpfsAction::Send(rpc_reply(
                        self.our_did.as_str(),
                        self.reply_address.clone(),
                        self.reply_content.clone(),
                        self.message_id.as_str(),
                    ))
                } else {
                    self.stage = IpfsStage::Finished;
                    IpfsAction::Finish(Ok(()))
                }
            },
            IpfsEvent::Sent(delivered) => {
                self.stage = IpfsStage::Finished;
                IpfsAction::Finish(if delivered { Ok(()) } else { Err(IpfsError::SendFailed) })
            },
        }
    }
}

} // verus!
