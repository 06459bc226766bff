//! `did:ma:` identifiers: parsing (by `ma_core`) and the textual forms the
//! runtime builds from a parsed DID.

use vstd::prelude::*;

verus! {

/// A parsed `did:ma:` identifier: the IPNS identifier and the optional
/// fragment (`did:ma:<ipns>` or `did:ma:<ipns>#<fragment>`).
pub struct DidParts {
    pub ipns: String,
    pub fragment: Option<String>,
}

/// The view of an optional string.
pub open spec fn opt_view(o: Option<String>) -> Option<Seq<char>> {
    match o {
        Some(s) => Some(s@),
        None => None,
    }
}

/// The text `did:ma:<ipns>` or `did:ma:<ipns>#<fragment>`.
pub open spec fn did_text(ipns: Seq<char>, fragment: Option<Seq<char>>) -> Seq<char> {
    match fragment {
        Some(f) => "did:ma:"@ + ipns + "#"@ + f,
        None => "did:ma:"@ + ipns,
    }
}

/// The characters `ma_core` accepts in a fragment: ASCII letters, digits,
/// `_` and `-`.
pub open spec fn is_fragment_char(c: char) -> bool {
    ('a' <= c <= 'z') || ('A' <= c <= 'Z') || ('0' <= c <= '9') || c == '_' || c == '-'
}

/// What `ma_core::Did::try_from` makes of `input`: the IPNS identifier and
/// fragment, or `None` where it refuses the input.
pub uninterp spec fn did_parse(input: Seq<char>) -> Option<(Seq<char>, Option<Seq<char>>)>;

/// Parses `input` with `ma_core::Did::try_from` (`TryFrom<&str> for Did`).
///
/// Trusted: the result is the named [`did_parse`] of the input. The source
/// of `Did::parse` also shows: an input without the `did:ma:` prefix is
/// refused; an accepted input is exactly `did:ma:<ipns>` or
/// `did:ma:<ipns>#<fragment>` where the identifier is non-empty and holds no
/// `#`, and the fragment is non-empty and made of fragment characters. Which
/// identifiers are accepted (a CIDv1 of an Ed25519 libp2p key in base36) is
/// left to the name.
#[verifier::external_body]
pub fn parse_did(input: &str) -> (parsed: Option<DidParts>)
    ensures
        match parsed {
            Some(d) => did_parse(input@) == Some((d.ipns@, opt_view(d.fragment))),
            None => did_parse(input@) is None,
        },
        !"did:ma:"@.is_prefix_of(input@) ==> parsed is None,
        parsed matches Some(d) ==> {
            &&& input@ == did_text(d.ipns@, opt_view(d.fragment))
            &&& d.ipns@.len() > 0
            &&& !d.ipns@.contains('#')
            &&& d.fragment matches Some(f) ==> f@.len() > 0 && forall|i: int|
                0 <= i < f@.len() ==> #[trigger] is_fragment_char(f@[i])
        },
{
    match ma_core::Did::try_from(input) {
        Ok(did) => Some(DidParts { ipns: did.ipns, fragment: did.fragment }),
        Err(_) => None,
    }
}

/// The bare DID `did:ma:<ipns>` of a parsed DID (`ma_core::Did::base_id`).
pub fn did_base_id(did: &DidParts) -> (id: String)
    ensures
        id@ == did_text(did.ipns@, None),
{
    let mut id = "did:ma:".to_owned();
    id.append(did.ipns.as_str());
    id
}

/// The full DID URL of a parsed DID, fragment included (`ma_core::Did::id`).
pub fn did_id(did: &DidParts) -> (id: String)
    ensures
        id@ == did_text(did.ipns@, opt_view(did.fragment)),
{
    let mut id = did_base_id(did);
    match &did.fragment {
        Some(f) => {
            id.append("#");
            id.append(f.as_str());
        },
        None => {},
    }
    id
}

/// The DID URL `did:ma:<ipns>#<fragment>` of the sender's entity named
/// `fragment`, to which the runtime addresses its replies.
pub fn sender_entity_url(did: &DidParts, fragment: &str) -> (url: String)
    ensures
        url@ == did_text(did.ipns@, Some(fragment@)),
{
    let mut url = did_base_id(did);
    url.append("#");
    url.append(fragment);
    url
}

} // verus!
