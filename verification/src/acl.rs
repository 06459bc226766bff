//! Access control on incoming messages.
//!
//! An [`Acl`] maps principals (`"*"`, `"#"`, `"#<entity>"`, `did:ma:<id>`,
//! groups) to either an explicit deny or a set of capabilities; it is the
//! runtime's in-memory form of `ma_core::AclMap`, whose checks `ma_core`
//! performs. A message is admitted when its sender parses as a `did:ma:`
//! identifier and both its full DID URL and its bare DID hold the capability
//! that the service asks for.

use vstd::prelude::*;
use crate::did::{did_base_id, did_id, did_parse, did_text, parse_did, opt_view};

verus! {

/// The capability that guards the RPC service (`/ma/rpc/0.0.1`).
pub const CAP_RPC: &'static str = "rpc";

/// The capability set of one principal: an explicit deny, or the capabilities
/// it holds (`"*"` among them grants every capability).
pub enum Capabilities {
    Deny,
    Allow(Vec<String>),
}

/// One entry of an [`Acl`].
pub struct AclEntry {
    pub principal: String,
    pub caps: Capabilities,
}

/// An access-control list. Later entries for the same principal replace
/// earlier ones, as they do when the entries are collected into a map.
pub struct Acl {
    pub entries: Vec<AclEntry>,
}

/// Why a sender was refused.
#[derive(PartialEq, Eq, Structural)]
pub enum AclError {
    /// The sender is not a `did:ma:` identifier.
    InvalidSender,
    /// The ACL does not grant the capability to the sender.
    Denied,
}

/// The view of a capability set: `None` for a deny, else the set of
/// capabilities.
pub open spec fn caps_view(c: Capabilities) -> Option<Set<Seq<char>>> {
    match c {
        Capabilities::Deny => None,
        Capabilities::Allow(v) => Some(v@.map_values(|s: String| s@).to_set()),
    }
}

/// The map from principals to capability sets that the entries make, the
/// later entry winning for a principal that occurs twice.
pub open spec fn entries_map(entries: Seq<AclEntry>) -> Map<Seq<char>, Option<Set<Seq<char>>>>
    decreases entries.len(),
{
    if entries.len() == 0 {
        Map::empty()
    } else {
        let last = entries.last();
        entries_map(entries.drop_last()).insert(last.principal@, caps_view(last.caps))
    }
}

impl View for Acl {
    type V = Map<Seq<char>, Option<Set<Seq<char>>>>;

    open spec fn view(&self) -> Self::V {
        entries_map(self.entries@)
    }
}

/// The text of `s` up to its first `c` (all of `s` where it holds no `c`).
pub open spec fn before_first(s: Seq<char>, c: char) -> Seq<char>
    decreases s.len(),
{
    if s.len() == 0 {
        s
    } else if s[0] == c {
        Seq::empty()
    } else {
        seq![s[0]] + before_first(s.drop_first(), c)
    }
}

/// `ma_core::normalize_principal`: a `did:` principal loses its fragment;
/// anything else is left as it is.
pub open spec fn normalize_principal(p: Seq<char>) -> Seq<char> {
    if "did:"@.is_prefix_of(p) && p.contains('#') {
        before_first(p, '#')
    } else {
        p
    }
}

/// Whether a capability set grants `cap`.
pub open spec fn grants(entry: Option<Set<Seq<char>>>, cap: Seq<char>) -> bool {
    match entry {
        None => false,
        Some(caps) => caps.contains(cap) || caps.contains("*"@),
    }
}

/// `ma_core::check_cap` succeeds: the normalised caller's own entry decides;
/// without one, a `#`-prefixed caller falls back on the `"#"` entry; then
/// every caller falls back on the `"*"` entry; without any, access is denied.
pub open spec fn check_cap(acl: Map<Seq<char>, Option<Set<Seq<char>>>>, caller: Seq<char>, cap: Seq<char>) -> bool {
    let n = normalize_principal(caller);
    if acl.dom().contains(n) {
        grants(acl[n], cap)
    } else if n.len() > 0 && n[0] == '#' && acl.dom().contains("#"@) {
        grants(acl["#"@], cap)
    } else if acl.dom().contains("*"@) {
        grants(acl["*"@], cap)
    } else {
        false
    }
}

/// Whether the sender `from` is admitted for `cap`: it parses, and both its
/// DID URL and its bare DID hold `cap`.
pub open spec fn sender_admitted(acl: Map<Seq<char>, Option<Set<Seq<char>>>>, from: Seq<char>, cap: Seq<char>) -> bool {
    match did_parse(from) {
        Some((ipns, fragment)) => check_cap(acl, did_text(ipns, fragment), cap)
            && check_cap(acl, did_text(ipns, None), cap),
        None => false,
    }
}

/// Asks `ma_core::check_cap` whether `caller` holds `cap` in the ACL, after
/// collecting the entries into an `ma_core::AclMap`.
///
/// Trusted: the result is that of the few lines of `check_cap` (and
/// `normalize_principal`) in `ma_core`, restated in [`check_cap`].
#[verifier::external_body]
pub(crate) fn ma_check_cap(acl: &Acl, caller: &str, cap: &str) -> (allowed: bool)
    ensures
        allowed == check_cap(acl@, caller@, cap@),
{
    let map: ma_core::AclMap = acl.entries.iter().map(|e| (e.principal.clone(), match &e.caps {
        Capabilities::Deny => ma_core::CapabilityEntry::Deny,
        Capabilities::Allow(caps) => ma_core::CapabilityEntry::Allow(caps.iter().cloned().collect()),
    })).collect();
    ma_core::check_cap(&map, caller, cap).is_ok()
}

/// What `serde_yaml` and `ma_core::validate_acl_map` make of an ACL
/// document's `acl:` map, in the map view of [`Acl`]; `None` where the text
/// does not parse or a key is invalid.
pub uninterp spec fn acl_document(yaml: Seq<char>) -> Option<Map<Seq<char>, Option<Set<Seq<char>>>>>;

/// Reads an ACL document (`acl:` mapping principals to capability lists,
/// `null` for an explicit deny): `serde_yaml::from_str`, then the `acl` field
/// by `serde_yaml::from_value` into an `ma_core::AclMap`, then
/// `ma_core::validate_acl_map`; the map is converted entry by entry.
///
/// Trusted: the result is the named [`acl_document`] of the text, and `None`
/// comes exactly where that is `None`.
#[verifier::external_body]
pub fn acl_from_yaml(yaml: &str) -> (acl: Option<Acl>)
    ensures
        match acl {
            Some(a) => acl_document(yaml@) == Some(a@),
            None => acl_document(yaml@) is None,
        },
{
    let value: serde_yaml::Value = serde_yaml::from_str(yaml).ok()?;
    let map: ma_core::AclMap = serde_yaml::from_value(value["acl"].clone()).ok()?;
    ma_core::validate_acl_map(&map).ok()?;
    Some(Acl { entries: map.into_iter().map(|(principal, entry)| AclEntry { principal, caps: match entry {
        ma_core::CapabilityEntry::Deny => Capabilities::Deny,
        ma_core::CapabilityEntry::Allow(caps) => Capabilities::Allow(caps.into_iter().collect()),
    } }).collect() })
}

/// Admits or refuses the sender `from` of a message on a service guarded by
/// `cap`.
pub fn acl_check(acl: &Acl, from: &str, cap: &str) -> (r: Result<(), AclError>)
    ensures
        r is Ok <==> sender_admitted(acl@, from@, cap@),
        r == Err::<(), AclError>(AclError::InvalidSender) <==> did_parse(from@) is None,
{
    match parse_did(from) {
        None => Err(AclError::InvalidSender),
        Some(sender) => {
            let id = did_id(&sender);
            let base = did_base_id(&sender);
            if ma_check_cap(acl, id.as_str(), cap) && ma_check_cap(acl, base.as_str(), cap) {
                Ok(())
            } else {
                Err(AclError::Denied)
            }
        },
    }
}

/// Where the daemon takes its ACL from.
#[derive(PartialEq, Eq, Structural)]
pub enum AclOrigin {
    /// The file named on the command line.
    ExplicitFile,
    /// The file at the default path.
    DefaultFile,
    /// No file: open access ([`open_acl`]).
    Open,
}

/// Chooses where the ACL comes from: a file named on the command line wins;
/// else the default file where it exists; else open access.
pub fn acl_origin(explicit_file: bool, default_file_exists: bool) -> (origin: AclOrigin)
    ensures
        origin == if explicit_file {
            AclOrigin::ExplicitFile
        } else if default_file_exists {
            AclOrigin::DefaultFile
        } else {
            AclOrigin::Open
        },
{
    if explicit_file {
        AclOrigin::ExplicitFile
    } else if default_file_exists {
        AclOrigin::DefaultFile
    } else {
        AclOrigin::Open
    }
}

/// The ACL of a daemon started without an ACL file: everyone holds every
/// capability.
pub fn open_acl() -> (acl: Acl)
    ensures
        acl@ == Map::<Seq<char>, Option<Set<Seq<char>>>>::empty().insert("*"@, Some(set!["*"@])),
{
    let mut caps: Vec<String> = Vec::new();
    caps.push("*".to_owned());
    let mut entries: Vec<AclEntry> = Vec::new();
    entries.push(AclEntry { principal: "*".to_owned(), caps: Capabilities::Allow(caps) });
    let acl = Acl { entries };
    proof {
        let e = acl.entries@;
        assert(e.drop_last() =~= Seq::<AclEntry>::empty());
        assert(entries_map(e.drop_last()) == Map::<Seq<char>, Option<Set<Seq<char>>>>::empty());
        let v = caps_view(e.last().caps);
        assert(v == Some(set!["*"@])) by {
            let s = match e.last().caps { Capabilities::Allow(v) => v@, _ => Seq::empty() };
            assert(s.map_values(|s: String| s@) =~= seq!["*"@]);
            assert(seq!["*"@].to_set() =~= set!["*"@]) by {
                assert(seq!["*"@].contains("*"@)) by { assert(seq!["*"@][0] == "*"@); }
            }
        }
        assert(acl@ =~= Map::<Seq<char>, Option<Set<Seq<char>>>>::empty().insert("*"@, Some(set!["*"@])));
    }
    acl
}

proof fn lemma_before_first_split(a: Seq<char>, b: Seq<char>)
    requires
        !a.contains('#'),
    ensures
        before_first(a + seq!['#'] + b, '#') == a,
    decreases a.len(),
{
    if a.len() == 0 {
        assert((a + seq!['#'] + b)[0] == '#');
    } else {
        let rest = a.drop_first();
        assert(!rest.contains('#')) by {
            if rest.contains('#') {
                let i = choose|i: int| 0 <= i < rest.len() && rest[i] == '#';
                assert(a[i + 1] == '#');
            }
        }
        assert(a[0] != '#') by {
            if a[0] == '#' {
                assert(a.contains('#'));
            }
        }
        lemma_before_first_split(rest, b);
        assert((a + seq!['#'] + b).drop_first() =~= rest + seq!['#'] + b);
        assert(seq![a[0]] + rest =~= a);
    }
}

/// A bare DID is its own normalised principal, and a DID URL normalises to
/// its bare DID.
proof fn lemma_normalize_did_text(ipns: Seq<char>, fragment: Option<Seq<char>>)
    requires
        !ipns.contains('#'),
    ensures
        normalize_principal(did_text(ipns, fragment)) == did_text(ipns, None),
{
    reveal_strlit("did:ma:");
    reveal_strlit("did:");
    reveal_strlit("#");
    let bare = did_text(ipns, None);
    assert("did:"@.is_prefix_of(bare)) by {
        assert(bare.subrange(0, 4) =~= "did:"@);
    }
    assert(!bare.contains('#')) by {
        if bare.contains('#') {
            let i = choose|i: int| 0 <= i < bare.len() && bare[i] == '#';
            if i >= 7 {
                assert(ipns[i - 7] == '#');
            }
        }
    }
    match fragment {
        Some(f) => {
            let t = did_text(ipns, fragment);
            assert(t =~= bare + seq!['#'] + f);
            assert("did:"@.is_prefix_of(t)) by {
                assert(t.subrange(0, 4) =~= "did:"@);
            }
            assert(t.contains('#')) by {
                assert(t[bare.len() as int] == '#');
            }
            lemma_before_first_split(bare, f);
        },
        None => {},
    }
}

/// Whether a sender carries a fragment does not change the decision: the
/// DID URL `did:ma:<ipns>#<fragment>` and the bare DID `did:ma:<ipns>` hold
/// the same capabilities in every ACL.
pub proof fn lemma_fragment_does_not_change_decision(
    acl: Map<Seq<char>, Option<Set<Seq<char>>>>,
    ipns: Seq<char>,
    fragment: Seq<char>,
    cap: Seq<char>,
)
    requires
        !ipns.contains('#'),
    ensures
        check_cap(acl, did_text(ipns, Some(fragment)), cap) == check_cap(acl, did_text(ipns, None), cap),
{
    lemma_normalize_did_text(ipns, Some(fragment));
    lemma_normalize_did_text(ipns, None);
}

/// A sender is admitted exactly when its bare DID holds the capability.
pub proof fn lemma_admitted_iff_bare_did_holds(
    acl: Map<Seq<char>, Option<Set<Seq<char>>>>,
    from: Seq<char>,
    ipns: Seq<char>,
    fragment: Option<Seq<char>>,
    cap: Seq<char>,
)
    requires
        did_parse(from) == Some((ipns, fragment)),
        !ipns.contains('#'),
    ensures
        sender_admitted(acl, from, cap) == check_cap(acl, did_text(ipns, None), cap),
{
    lemma_normalize_did_text(ipns, fragment);
    lemma_normalize_did_text(ipns, None);
}

/// Deny wins: an explicit deny for a sender's DID refuses it every
/// capability, whatever the wildcard entries grant.
pub proof fn lemma_explicit_deny_refuses(
    acl: Map<Seq<char>, Option<Set<Seq<char>>>>,
    from: Seq<char>,
    ipns: Seq<char>,
    fragment: Option<Seq<char>>,
    cap: Seq<char>,
)
    requires
        did_parse(from) == Some((ipns, fragment)),
        !ipns.contains('#'),
        acl.dom().contains(did_text(ipns, None)),
        acl[did_text(ipns, None)] is None,
    ensures
        !sender_admitted(acl, from, cap),
{
    lemma_admitted_iff_bare_did_holds(acl, from, ipns, fragment, cap);
    lemma_normalize_did_text(ipns, None);
}

/// There is no implicit open default: a sender with no entry of its own, in
/// an ACL without a `"*"` entry, is refused.
pub proof fn lemma_no_entry_refuses(
    acl: Map<Seq<char>, Option<Set<Seq<char>>>>,
    from: Seq<char>,
    ipns: Seq<char>,
    fragment: Option<Seq<char>>,
    cap: Seq<char>,
)
    requires
        did_parse(from) == Some((ipns, fragment)),
        !ipns.contains('#'),
        !acl.dom().contains(did_text(ipns, None)),
        !acl.dom().contains("*"@),
    ensures
        !sender_admitted(acl, from, cap),
{
    reveal_strlit("did:ma:");
    lemma_admitted_iff_bare_did_holds(acl, from, ipns, fragment, cap);
    lemma_normalize_did_text(ipns, None);
    assert(did_text(ipns, None)[0] == 'd');
}

/// A wildcard deny closes access to every sender that has no entry of its
/// own.
pub proof fn lemma_wildcard_deny_refuses_unlisted(
    acl: Map<Seq<char>, Option<Set<Seq<char>>>>,
    from: Seq<char>,
    ipns: Seq<char>,
    fragment: Option<Seq<char>>,
    cap: Seq<char>,
)
    requires
        did_parse(from) == Some((ipns, fragment)),
        !ipns.contains('#'),
        !acl.dom().contains(did_text(ipns, None)),
        acl.dom().contains("*"@),
        acl["*"@] is None,
    ensures
        !sender_admitted(acl, from, cap),
{
    reveal_strlit("did:ma:");
    lemma_admitted_iff_bare_did_holds(acl, from, ipns, fragment, cap);
    lemma_normalize_did_text(ipns, None);
    assert(did_text(ipns, None)[0] == 'd');
}

/// A sender's own entry decides alone: with an allow entry for its bare
/// DID, it is admitted exactly when that entry lists the capability or
/// `"*"`, whatever the wildcard entries say.
pub proof fn lemma_own_entry_decides(
    acl: Map<Seq<char>, Option<Set<Seq<char>>>>,
    from: Seq<char>,
    ipns: Seq<char>,
    fragment: Option<Seq<char>>,
    cap: Seq<char>,
    caps: Set<Seq<char>>,
)
    requires
        did_parse(from) == Some((ipns, fragment)),
        !ipns.contains('#'),
        acl.dom().contains(did_text(ipns, None)),
        acl[did_text(ipns, None)] == Some(caps),
    ensures
        sender_admitted(acl, from, cap) <==> (caps.contains(cap) || caps.contains("*"@)),
{
    lemma_admitted_iff_bare_did_holds(acl, from, ipns, fragment, cap);
    lemma_normalize_did_text(ipns, None);
}

/// A sender without an entry of its own falls back on the `"*"` entry: with
/// a wildcard allow entry, it is admitted exactly when that entry lists the
/// capability or `"*"`.
pub proof fn lemma_wildcard_decides_for_unlisted(
    acl: Map<Seq<char>, Option<Set<Seq<char>>>>,
    from: Seq<char>,
    ipns: Seq<char>,
    fragment: Option<Seq<char>>,
    cap: Seq<char>,
    caps: Set<Seq<char>>,
)
    requires
        did_parse(from) == Some((ipns, fragment)),
        !ipns.contains('#'),
        !acl.dom().contains(did_text(ipns, None)),
        acl.dom().contains("*"@),
        acl["*"@] == Some(caps),
    ensures
        sender_admitted(acl, from, cap) <==> (caps.contains(cap) || caps.contains("*"@)),
{
    reveal_strlit("did:ma:");
    lemma_admitted_iff_bare_did_holds(acl, from, ipns, fragment, cap);
    lemma_normalize_did_text(ipns, None);
    assert(did_text(ipns, None)[0] == 'd');
}

/// The open ACL admits every sender that parses, for every capability.
pub proof fn lemma_open_acl_admits(from: Seq<char>, cap: Seq<char>)
    requires
        did_parse(from) is Some,
    ensures
        sender_admitted(
            Map::<Seq<char>, Option<Set<Seq<char>>>>::empty().insert("*"@, Some(set!["*"@])),
            from,
            cap,
        ),
{
    let acl = Map::<Seq<char>, Option<Set<Seq<char>>>>::empty().insert("*"@, Some(set!["*"@]));
    assert forall|caller: Seq<char>| #[trigger] check_cap(acl, caller, cap) by {
        let n = normalize_principal(caller);
        if acl.dom().contains(n) {
            assert(n == "*"@);
        } else if n.len() > 0 && n[0] == '#' && acl.dom().contains("#"@) {
            assert("#"@ == "*"@);
        }
    }
    let (ipns, fragment) = did_parse(from).unwrap();
    assert(check_cap(acl, did_text(ipns, fragment), cap));
    assert(check_cap(acl, did_text(ipns, None), cap));
}

} // verus!
