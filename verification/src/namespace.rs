//! The `:create <name>` request of the CRUD service: create a user namespace
//! whose namespace ACL grants its creator every capability.
//!
//! The caller must hold `create` in the root ACL; reserved and existing names
//! are refused with a localised error reply. The creator's ACL is stored in
//! IPFS, the namespace is added to the runtime manifest, the ACL cache is
//! warmed, and the new manifest root is sent back. The storage and messaging
//! are done by the caller; [`CreateSession`] decides what comes next.

use vstd::prelude::*;
use crate::acl::{check_cap, ma_check_cap, normalize_principal, Acl, AclEntry, Capabilities};
use crate::cbor::{Term, TermView};
use crate::text::str_eq;

verus! {

/// The capability that creating a namespace asks of the caller.
pub const CAP_CREATE: &'static str = "create";
/// The message key of the usage error.
pub const USAGE_ERROR: &'static str = "namespace-create-usage";
/// The message key of a refused capability.
pub const DENIED_ERROR: &'static str = "namespace-create-denied";
/// The message key of a reserved name.
pub const RESERVED_ERROR: &'static str = "namespace-name-reserved";
/// The message key of an existing namespace.
pub const EXISTS_ERROR: &'static str = "namespace-already-exists";

/// Namespace names that users may not create.
pub open spec fn is_reserved_namespace(name: Seq<char>) -> bool {
    ||| name == "acl"@
    ||| name == "acls"@
    ||| name == "protocol"@
    ||| name == "kinds"@
    ||| name == "entities"@
    ||| name == "i18n"@
    ||| name == "config"@
    ||| name == "create"@
}

/// Exactly eight names are reserved: `acl`, `acls`, `protocol`, `kinds`,
/// `entities`, `i18n`, `config` and `create`.
pub proof fn lemma_reserved_names(name: Seq<char>)
    ensures
        is_reserved_namespace(name) <==> set![
            "acl"@,
            "acls"@,
            "protocol"@,
            "kinds"@,
            "entities"@,
            "i18n"@,
            "config"@,
            "create"@,
        ].contains(name),
{
}

/// Whether `name` is a reserved namespace name.
pub fn reserved_namespace(name: &str) -> (reserved: bool)
    ensures
        reserved == is_reserved_namespace(name@),
{
    str_eq(name, "acl") || str_eq(name, "acls") || str_eq(name, "protocol") || str_eq(name, "kinds")
        || str_eq(name, "entities") || str_eq(name, "i18n") || str_eq(name, "config") || str_eq(
        name,
        "create",
    )
}

/// What a `crud-set` request addressed to `:create` asks for.
pub enum CreateRequest {
    /// Create the namespace with this name.
    Create(String),
    /// The payload is not `[":create", "<name>"]`: answer with the usage
    /// error.
    Usage,
}

/// Reads a `crud-set` request addressed to `:create`: the path tail must be
/// empty and the arguments a single text term, the namespace name.
pub fn handle_create_ns(tail: Option<&str>, args: &Vec<Term>) -> (req: CreateRequest)
    ensures
        match req {
            CreateRequest::Create(name) => tail matches Some(t) && t@.len() == 0 && args@.len() == 1
                && args@[0]@ == TermView::Text(name@),
            CreateRequest::Usage => !(tail matches Some(t) && t@.len() == 0 && args@.len() == 1
                && args@[0]@ is Text),
        },
{
    let empty_tail = match tail {
        Some(t) => t.is_empty(),
        None => false,
    };
    if empty_tail && args.len() == 1 {
        match &args[0] {
            Term::Text(name) => CreateRequest::Create(name.clone()),
            Term::Other => CreateRequest::Usage,
        }
    } else {
        CreateRequest::Usage
    }
}

/// The caller's principal for ACL purposes, by `ma_core::normalize_principal`.
///
/// Trusted: the result is that of the few lines of `normalize_principal`,
/// restated in [`normalize_principal`].
#[verifier::external_body]
fn ma_normalize_principal(caller: &str) -> (principal: String)
    ensures
        principal@ == normalize_principal(caller@),
{
    ma_core::normalize_principal(caller).to_string()
}

/// The namespace ACL of a namespace created by `caller`: the caller's principal
/// holds every capability.
pub fn owner_acl(caller: &str) -> (acl: Acl)
    ensures
        acl@ == Map::<Seq<char>, Option<Set<Seq<char>>>>::empty().insert(
            normalize_principal(caller@),
            Some(set!["*"@]),
        ),
{
    let mut caps: Vec<String> = Vec::new();
    caps.push("*".to_owned());
    let mut entries: Vec<AclEntry> = Vec::new();
    entries.push(AclEntry { principal: ma_normalize_principal(caller), caps: Capabilities::Allow(caps) });
    let acl = Acl { entries };
    proof {
        let e = acl.entries@;
        assert(e.drop_last() =~= Seq::<AclEntry>::empty());
        assert(crate::acl::entries_map(e.drop_last()) == Map::<Seq<char>, Option<Set<Seq<char>>>>::empty());
        let s = match e.last().caps { Capabilities::Allow(v) => v@, _ => Seq::empty() };
        assert(s.map_values(|s: String| s@) =~= seq!["*"@]);
        assert(seq!["*"@].to_set() =~= set!["*"@]) by {
            assert(seq!["*"@].contains("*"@)) by { assert(seq!["*"@][0] == "*"@); }
        }
        assert(acl@ =~= Map::<Seq<char>, Option<Set<Seq<char>>>>::empty().insert(
            normalize_principal(caller@),
            Some(set!["*"@]),
        ));
    }
    acl
}

/// The creator of a namespace holds every capability in its namespace ACL.
pub proof fn lemma_owner_holds_every_capability(caller: Seq<char>, cap: Seq<char>)
    ensures
        check_cap(
            Map::<Seq<char>, Option<Set<Seq<char>>>>::empty().insert(
                normalize_principal(caller),
                Some(set!["*"@]),
            ),
            caller,
            cap,
        ),
{
}

/// The ACL-cache key of a namespace's namespace ACL: `<name>.acl`.
pub fn acl_cache_key(name: &str) -> (key: String)
    ensures
        key@ == name@ + ".acl"@,
{
    let mut key = name.to_owned();
    key.append(".acl");
    key
}

/// Why creating a namespace failed.
#[derive(PartialEq, Eq, Structural)]
pub enum CreateError {
    /// The runtime manifest could not be loaded.
    ManifestLoad,
    /// The namespace ACL could not be stored.
    AclStore,
    /// The updated manifest could not be persisted.
    ManifestPersist,
    /// The reply could not be sent.
    ReplyFailed,
}

/// The outcome of a step that the caller performed.
pub enum CreateEvent {
    /// The manifest loaded and already holds the namespace (`Ok(true)`) or
    /// not, or it could not be loaded.
    ManifestLoaded(Result<bool, ()>),
    /// The namespace ACL was stored under this CID, or storing failed.
    AclStored(Result<String, ()>),
    /// The manifest with the new namespace was persisted under this root
    /// CID, or persisting failed.
    ManifestPersisted(Result<String, ()>),
    /// The ACL cache holds the new namespace ACL.
    CacheWarmed,
    /// The reply was sent (`true`) or sending failed.
    Replied(bool),
}

/// What the caller is to do next.
pub enum CreateAction {
    /// Reply with the localised error of this message key.
    ReplyError(&'static str),
    /// Load the runtime manifest and look the namespace up.
    LoadManifest,
    /// Store this namespace ACL in IPFS.
    StoreAcl(Acl),
    /// Add the namespace, gated by the ACL stored under `acl_cid`, to the
    /// manifest and persist it.
    PersistManifest { name: String, acl_cid: String },
    /// Put the ACL stored under `acl_cid` in the ACL cache under `key`.
    WarmCache { key: String, acl_cid: String },
    /// Reply with the new manifest root CID.
    ReplyOk(String),
    /// The request is handled, with this result.
    Finish(Result<(), CreateError>),
}

/// Where a creation stands.
#[derive(PartialEq, Eq, Structural, Clone, Copy)]
pub enum CreateStage {
    AwaitManifest,
    AwaitAclCid,
    AwaitRoot,
    AwaitCache,
    AwaitReply,
    Finished,
}

/// The creation of one namespace.
pub struct CreateSession {
    pub stage: CreateStage,
    /// The caller.
    pub caller: String,
    /// The namespace name.
    pub name: String,
    /// The CID of the stored namespace ACL, once known.
    pub acl_cid: String,
    /// The new manifest root CID, once known.
    pub root: String,
}

impl CreateSession {
    /// Whether `event` is the outcome that the current stage awaits.
    pub open spec fn awaits(&self, event: CreateEvent) -> bool {
        match (self.stage, event) {
            (CreateStage::AwaitManifest, CreateEvent::ManifestLoaded(_)) => true,
            (CreateStage::AwaitAclCid, CreateEvent::AclStored(_)) => true,
            (CreateStage::AwaitRoot, CreateEvent::ManifestPersisted(_)) => true,
            (CreateStage::AwaitCache, CreateEvent::CacheWarmed) => true,
            (CreateStage::AwaitReply, CreateEvent::Replied(_)) => true,
            _ => false,
        }
    }

    /// Starts creating the namespace `name` for `caller`: a caller that does
    /// not hold [`CAP_CREATE`] in the root ACL, and a reserved name, are
    /// answered with their localised error; otherwise the manifest is
    /// loaded next.
    pub fn start(root_acl: &Acl, caller: &str, name: &str) -> (res: (CreateSession, CreateAction))
        ensures
            res.0.caller@ == caller@,
            res.0.name@ == name@,
            !check_cap(root_acl@, caller@, CAP_CREATE@) ==> res.0.stage == CreateStage::AwaitReply
                && res.1 == CreateAction::ReplyError(DENIED_ERROR),
            check_cap(root_acl@, caller@, CAP_CREATE@) && is_reserved_namespace(name@) ==> res.0.stage
                == CreateStage::AwaitReply && res.1 == CreateAction::ReplyError(RESERVED_ERROR),
            check_cap(root_acl@, caller@, CAP_CREATE@) && !is_reserved_namespace(name@) ==> res.0.stage
                == CreateStage::AwaitManifest && res.1 == CreateAction::LoadManifest,
    {
        let mut session = CreateSession {
            stage: CreateStage::AwaitReply,
            caller: caller.to_owned(),
            name: name.to_owned(),
            acl_cid: String::new(),
            root: String::new(),
        };
        if !ma_check_cap(root_acl, caller, CAP_CREATE) {
            (session, CreateAction::ReplyError(DENIED_ERROR))
        } else if reserved_namespace(name) {
            (session, CreateAction::ReplyError(RESERVED_ERROR))
        } else {
            session.stage = CreateStage::AwaitManifest;
            (session, CreateAction::LoadManifest)
        }
    }

    /// Takes the outcome of the step the caller performed and says what
    /// comes next. An existing namespace is answered with its localised
    /// error; otherwise the
    /// creator-only namespace ACL is stored, the manifest persisted with the new
    /// namespace, the ACL cache warmed under `<name>.acl`, and the new root
    /// CID sent back. A failed load, store or persist ends with an error; the
    /// result of the final reply is the result of the request.
    pub fn step(&mut self, event: CreateEvent) -> (action: CreateAction)
        requires
            old(self).awaits(event),
        ensures
            final(self).caller == old(self).caller,
            final(self).name == old(self).name,
            match (old(self).stage, event) {
                (CreateStage::AwaitManifest, CreateEvent::ManifestLoaded(loaded)) => match loaded {
                    Err(()) => final(self).stage == CreateStage::Finished
                        && action == CreateAction::Finish(Err(CreateError::ManifestLoad)),
                    Ok(true) => final(self).stage == CreateStage::AwaitReply
                        && action == CreateAction::ReplyError(EXISTS_ERROR),
                    Ok(false) => {
                        &&& final(self).stage == CreateStage::AwaitAclCid
                        &&& action matches CreateAction::StoreAcl(acl)
                        &&& acl@ == Map::<Seq<char>, Option<Set<Seq<char>>>>::empty().insert(
                            normalize_principal(old(self).caller@),
                            Some(set!["*"@]),
                        )
                    },
                },
                (CreateStage::AwaitAclCid, CreateEvent::AclStored(stored)) => match stored {
                    Err(()) => final(self).stage == CreateStage::Finished
                        && action == CreateAction::Finish(Err(CreateError::AclStore)),
                    Ok(cid) => {
                        &&& final(self).stage == CreateStage::AwaitRoot
                        &&& final(self).acl_cid == cid
                        &&& action matches CreateAction::PersistManifest { name, acl_cid }
                        &&& name@ == old(self).name@
                        &&& acl_cid@ == cid@
                    },
                },
                (CreateStage::AwaitRoot, CreateEvent::ManifestPersisted(persisted)) => match persisted {
                    Err(()) => final(self).stage == CreateStage::Finished
                        && action == CreateAction::Finish(Err(CreateError::ManifestPersist)),
                    Ok(root) => {
                        &&& final(self).stage == CreateStage::AwaitCache
                        &&& final(self).root == root
                        &&& action matches CreateAction::WarmCache { key, acl_cid }
                        &&& key@ == old(self).name@ + ".acl"@
                        &&& acl_cid@ == old(self).acl_cid@
                    },
                },
                (CreateStage::AwaitCache, CreateEvent::CacheWarmed) => {
                    &&& final(self).stage == CreateStage::AwaitReply
                    &&& action matches CreateAction::ReplyOk(root)
                    &&& root@ == old(self).root@
                },
                (CreateStage::AwaitReply, CreateEvent::Replied(sent)) => final(self).stage
                    == CreateStage::Finished && action == CreateAction::Finish(
                    if sent { Ok(()) } else { Err(CreateError::ReplyFailed) },
                ),
                _ => false,
            },
    {
        match event {
            CreateEvent::ManifestLoaded(loaded) => match loaded {
                Err(()) => {
                    self.stage = CreateStage::Finished;
                    CreateAction::Finish(Err(CreateError::ManifestLoad))
                },
                Ok(true) => {
                    self.stage = CreateStage::AwaitReply;
                    CreateAction::ReplyError(EXISTS_ERROR)
                },
                Ok(false) => {
                    self.stage = CreateStage::AwaitAclCid;
                    CreateAction::StoreAcl(owner_acl(self.caller.as_str()))
                },
            },
            CreateEvent::AclStored(stored) => match stored {
                Err(()) => {
                    self.stage = CreateStage::Finished;
                    CreateAction::Finish(Err(CreateError::AclStore))
                },
                Ok(cid) => {
                    self.stage = CreateStage::AwaitRoot;
                    let action = CreateAction::PersistManifest {
                        name: self.name.clone(),
                        acl_cid: cid.clone(),
                    };
                    self.acl_cid = cid;
                    action
                },
            },
            CreateEvent::ManifestPersisted(persisted) => match persisted {
                Err(()) => {
                    self.stage = CreateStage::Finished;
                    CreateAction::Finish(Err(CreateError::ManifestPersist))
                },
                Ok(root) => {
                    self.stage = CreateStage::AwaitCache;
                    self.root = root;
                    CreateAction::WarmCache {
                        key: acl_cache_key(self.name.as_str()),
                        acl_cid: self.acl_cid.clone(),
                    }
                },
            },
            CreateEvent::CacheWarmed => {
                self.stage = CreateStage::AwaitReply;
                CreateAction::ReplyOk(self.root.clone())
            },
            CreateEvent::Replied(sent) => {
                self.stage = CreateStage::Finished;
                CreateAction::Finish(if sent { Ok(()) } else { Err(CreateError::ReplyFailed) })
            },
        }
    }
}

} // verus!
