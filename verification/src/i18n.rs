//! Localised log messages and replies.
//!
//! A [`Catalog`] holds, for each language code, the texts of the runtime's
//! messages by message id. Texts come from FTL (Fluent) sources: the
//! compiled-in ones for `en` and `nb`, and any further languages fetched
//! from IPFS. A lookup in a language that is not loaded falls back to `en`;
//! an id without a text falls back to the id itself, so a caller always gets
//! something readable. The daemon's [`I18n`] state is set once.

use vstd::prelude::*;
use vstd::utf8::{decode_utf8, valid_utf8};
use crate::did::opt_view;

verus! {

/// The ids of all messages the runtime knows, in the order they are loaded.
pub open spec fn message_id_views() -> Seq<Seq<char>> {
    seq![
        "own-did-published"@,
        "own-did-publish-failed"@,
        "own-did-publish-timeout"@,
        "started"@,
        "shutdown-requested"@,
        "closing-endpoint"@,
        "shutdown-complete"@,
        "status-listening"@,
        "rpc-message-received"@,
        "rpc-message-rejected"@,
        "ipfs-message-rejected"@,
        "ctrlc-handler-failed"@,
        "node-connected"@,
        "received-encrypted-ma-msg"@,
        "unknown-rpc-atom"@,
        "rpc-reply-sent"@,
        "ping-received"@,
        "did-publish-request-received"@,
        "document-published"@,
        "did-publish-cid-reply-sent"@,
        "did-publish-resolve-failed"@,
        "ipfs-store-request-received"@,
        "ipfs-stored"@,
        "ipfs-store-cid-reply-sent"@,
        "ipfs-store-resolve-failed"@,
        "bootstrap-complete"@,
        "entity-loaded"@,
        "entity-load-failed"@,
        "entity-not-found"@,
        "entity-dispatched"@,
        "entity-replied"@,
        "root-create-entity"@,
        "root-list-entities"@,
        "root-delete-entity"@,
        "root-entity-updated"@,
        "entity-created"@,
        "entity-deleted"@,
        "entity-states-saving"@,
        "entity-state-saving"@,
        "entity-state-saved"@,
        "entity-state-empty"@,
        "entity-states-saved"@,
        "ftl-loaded"@,
        "no-config-found"@,
        "initialising-new-identity"@,
        "generated-headless-config"@,
        "runtime-claimed"@,
        "runtime-claim-persisted"@,
        "runtime-already-claimed"@,
        "refuse-delete-root"@,
        "no-root-acl"@,
        "namespace-not-found"@,
        "no-ns-gate-acl"@
    ]
}

/// The ids of all messages the runtime knows.
pub fn message_ids() -> (ids: Vec<&'static str>)
    ensures
        ids@.map_values(|s: &'static str| s@) == message_id_views(),
{
    let ids: Vec<&'static str> = vec![
        "own-did-published",
        "own-did-publish-failed",
        "own-did-publish-timeout",
        "started",
        "shutdown-requested",
        "closing-endpoint",
        "shutdown-complete",
        "status-listening",
        "rpc-message-received",
        "rpc-message-rejected",
        "ipfs-message-rejected",
        "ctrlc-handler-failed",
        "node-connected",
        "received-encrypted-ma-msg",
        "unknown-rpc-atom",
        "rpc-reply-sent",
        "ping-received",
        "did-publish-request-received",
        "document-published",
        "did-publish-cid-reply-sent",
        "did-publish-resolve-failed",
        "ipfs-store-request-received",
        "ipfs-stored",
        "ipfs-store-cid-reply-sent",
        "ipfs-store-resolve-failed",
        "bootstrap-complete",
        "entity-loaded",
        "entity-load-failed",
        "entity-not-found",
        "entity-dispatched",
        "entity-replied",
        "root-create-entity",
        "root-list-entities",
        "root-delete-entity",
        "root-entity-updated",
        "entity-created",
        "entity-deleted",
        "entity-states-saving",
        "entity-state-saving",
        "entity-state-saved",
        "entity-state-empty",
        "entity-states-saved",
        "ftl-loaded",
        "no-config-found",
        "initialising-new-identity",
        "generated-headless-config",
        "runtime-claimed",
        "runtime-claim-persisted",
        "runtime-already-claimed",
        "refuse-delete-root",
        "no-root-acl",
        "namespace-not-found",
        "no-ns-gate-acl"
    ];
    assert(ids@.map_values(|s: &'static str| s@) =~= message_id_views());
    ids
}

/// The map an association list makes, the later pair winning for a key
/// that occurs twice.
pub open spec fn assoc_map<V>(s: Seq<(String, V)>) -> Map<Seq<char>, V>
    decreases s.len(),
{
    if s.len() == 0 {
        Map::empty()
    } else {
        assoc_map(s.drop_last()).insert(s.last().0@, s.last().1)
    }
}

/// Finds the pair of `key` that decides its value: the last one.
pub fn assoc_find<V>(s: &Vec<(String, V)>, key: &str) -> (r: Option<usize>)
    ensures
        match r {
            Some(i) => {
                &&& i < s@.len()
                &&& s@[i as int].0@ == key@
                &&& assoc_map(s@).dom().contains(key@)
                &&& assoc_map(s@)[key@] == s@[i as int].1
            },
            None => !assoc_map(s@).dom().contains(key@),
        },
{
    let mut i = s.len();
    assert(s@.take(s@.len() as int) =~= s@);
    while i > 0
        invariant
            i <= s@.len(),
            assoc_map(s@).dom().contains(key@) == assoc_map(s@.take(i as int)).dom().contains(key@),
            assoc_map(s@).dom().contains(key@) ==> assoc_map(s@)[key@] == assoc_map(s@.take(i as int))[key@],
        decreases i,
    {
        let ghost prefix = s@.take(i as int);
        assert(prefix.drop_last() =~= s@.take(i - 1));
        assert(prefix.last() == s@[i - 1]);
        if crate::text::str_eq(s[i - 1].0.as_str(), key) {
            return Some(i - 1);
        }
        i = i - 1;
    }
    assert(s@.take(0) =~= Seq::<(String, V)>::empty());
    None
}

/// The texts of one language, by message id.
pub struct Messages {
    pub entries: Vec<(String, String)>,
}

impl View for Messages {
    type V = Map<Seq<char>, Seq<char>>;

    open spec fn view(&self) -> Map<Seq<char>, Seq<char>> {
        assoc_map(self.entries@).map_values(|v: String| v@)
    }
}

/// The runtime's message ids, as a set.
pub open spec fn message_id_set() -> Set<Seq<char>> {
    Set::new(|k: Seq<char>| message_id_views().contains(k))
}

/// Whether every text table of a catalogue knows only message ids.
pub open spec fn tables_within_ids(all: Map<Seq<char>, Map<Seq<char>, Seq<char>>>) -> bool {
    forall|l: Seq<char>| #[trigger] all.dom().contains(l) ==> all[l].dom().subset_of(message_id_set())
}

/// The texts of every loaded language, by language code. Its tables are
/// built from FTL sources by the library's loaders, so they know only the
/// runtime's message ids.
pub struct Catalog {
    languages: Vec<(String, Messages)>,
}

impl View for Catalog {
    type V = Map<Seq<char>, Map<Seq<char>, Seq<char>>>;

    closed spec fn view(&self) -> Map<Seq<char>, Map<Seq<char>, Seq<char>>> {
        assoc_map(self.languages@).map_values(|m: Messages| m@)
    }
}

/// Whether every table in the list knows only message ids.
spec fn entries_within_ids(languages: Seq<(String, Messages)>) -> bool {
    forall|i: int| 0 <= i < languages.len() ==> (#[trigger] languages[i]).1@.dom().subset_of(message_id_set())
}

impl Catalog {
    #[verifier::type_invariant]
    spec fn within_ids(self) -> bool {
        entries_within_ids(self.languages@)
    }
}

/// The value an association list gives a key is that of one of its pairs.
proof fn lemma_assoc_value_from_pair<V>(s: Seq<(String, V)>, k: Seq<char>)
    requires
        assoc_map(s).dom().contains(k),
    ensures
        exists|j: int| 0 <= j < s.len() && assoc_map(s)[k] == (#[trigger] s[j]).1,
    decreases s.len(),
{
    if s.last().0@ == k {
        assert(assoc_map(s)[k] == s[s.len() - 1].1);
    } else {
        lemma_assoc_value_from_pair(s.drop_last(), k);
        let j = choose|j: int| 0 <= j < s.drop_last().len() && assoc_map(s.drop_last())[k] == (#[trigger] s.drop_last()[j]).1;
        assert(s[j] == s.drop_last()[j]);
    }
}

/// A list whose tables know only message ids makes such a catalogue.
proof fn lemma_entries_within_ids(languages: Seq<(String, Messages)>)
    requires
        entries_within_ids(languages),
    ensures
        tables_within_ids(assoc_map(languages).map_values(|m: Messages| m@)),
{
    let all = assoc_map(languages).map_values(|m: Messages| m@);
    assert forall|l: Seq<char>| #[trigger] all.dom().contains(l) implies all[l].dom().subset_of(message_id_set()) by {
        lemma_assoc_value_from_pair(languages, l);
        let j = choose|j: int| 0 <= j < languages.len() && assoc_map(languages)[l] == (#[trigger] languages[j]).1;
        assert(all[l] == languages[j].1@);
    }
}

/// The daemon's localisation state: the runtime's own language and the
/// loaded catalogue, each set once.
pub struct I18n {
    pub runtime_lang: Option<String>,
    pub messages: Option<Catalog>,
}

impl I18n {
    /// Nothing loaded yet.
    pub fn new() -> (i: I18n)
        ensures
            i.runtime_lang is None,
            i.messages is None,
    {
        I18n { runtime_lang: None, messages: None }
    }
}

/// The text of `id` in `lang`: in the catalogue's `lang` texts, or its `en`
/// texts where `lang` is not loaded; the id itself where there is no
/// catalogue, no such language or no such text.
pub open spec fn localised(catalog: Option<Map<Seq<char>, Map<Seq<char>, Seq<char>>>>, lang: Seq<char>, id: Seq<char>) -> Seq<char> {
    match catalog {
        None => id,
        Some(all) => {
            let table = if all.dom().contains(lang) {
                Some(all[lang])
            } else if all.dom().contains("en"@) {
                Some(all["en"@])
            } else {
                None
            };
            match table {
                Some(texts) => if texts.dom().contains(id) {
                    texts[id]
                } else {
                    id
                },
                None => id,
            }
        },
    }
}

/// The view of the loaded catalogue.
pub open spec fn catalog_view(i: &I18n) -> Option<Map<Seq<char>, Map<Seq<char>, Seq<char>>>> {
    match i.messages {
        Some(c) => Some(c@),
        None => None,
    }
}

/// The runtime's own language: the one set at start-up, else `en`.
pub open spec fn runtime_lang_view(i: &I18n) -> Seq<char> {
    match i.runtime_lang {
        Some(l) => l@,
        None => "en"@,
    }
}

/// The text of `id` in the language `lang`, falling back to `en`, then to
/// the id itself; an id that is no message id always reads as itself.
pub fn t_lang(i18n: &I18n, lang: &str, id: &str) -> (text: String)
    ensures
        text@ == localised(catalog_view(i18n), lang@, id@),
        !message_id_views().contains(id@) ==> text@ == id@,
{
    proof {
        match &i18n.messages {
            Some(catalog) => {
                use_type_invariant(catalog);
                lemma_entries_within_ids(catalog.languages@);
                if !message_id_views().contains(id@) {
                    lemma_unknown_id_reads_as_itself(catalog@, lang@, id@);
                }
            },
            None => {},
        }
    }
    match &i18n.messages {
        None => id.to_owned(),
        Some(catalog) => {
            let table = match assoc_find(&catalog.languages, lang) {
                Some(k) => Some(k),
                None => assoc_find(&catalog.languages, "en"),
            };
            match table {
                None => id.to_owned(),
                Some(k) => {
                    let texts = &catalog.languages[k].1;
                    match assoc_find(&texts.entries, id) {
                        Some(j) => texts.entries[j].1.clone(),
                        None => id.to_owned(),
                    }
                },
            }
        },
    }
}

/// The runtime's own language code, `en` until one is set.
pub fn runtime_lang(i18n: &I18n) -> (lang: &str)
    ensures
        lang@ == runtime_lang_view(i18n),
{
    match &i18n.runtime_lang {
        Some(l) => l.as_str(),
        None => "en",
    }
}

/// The text of `id` in the runtime's own language.
pub fn t(i18n: &I18n, id: &str) -> (text: String)
    ensures
        text@ == localised(catalog_view(i18n), runtime_lang_view(i18n), id@),
        !message_id_views().contains(id@) ==> text@ == id@,
{
    t_lang(i18n, runtime_lang(i18n), id)
}

/// Whether texts for `lang` are loaded.
pub fn has_lang(i18n: &I18n, lang: &str) -> (loaded: bool)
    ensures
        loaded == (catalog_view(i18n) matches Some(all) && all.dom().contains(lang@)),
{
    match &i18n.messages {
        None => false,
        Some(catalog) => assoc_find(&catalog.languages, lang).is_some(),
    }
}

/// Sets the runtime's language and the catalogue, each only if it is not
/// set yet: later calls change nothing.
pub fn init(i18n: &mut I18n, lang: &str, messages: Catalog)
    ensures
        old(i18n).runtime_lang is None ==> (final(i18n).runtime_lang matches Some(l) && l@ == lang@),
        old(i18n).runtime_lang is Some ==> final(i18n).runtime_lang == old(i18n).runtime_lang,
        final(i18n).messages == if old(i18n).messages is None {
            Some(messages)
        } else {
            old(i18n).messages
        },
{
    if i18n.runtime_lang.is_none() {
        i18n.runtime_lang = Some(lang.to_owned());
    }
    if i18n.messages.is_none() {
        i18n.messages = Some(messages);
    }
}

/// Whether `tag` parses as a `unic_langid::LanguageIdentifier`.
pub uninterp spec fn language_tag_valid(tag: Seq<char>) -> bool;

/// The texts that a Fluent bundle for the locale `tag` holds after the FTL
/// source `ftl` was added to it, by message id (`None` for a message without
/// a value); `None` where the source does not parse or cannot be added.
pub uninterp spec fn ftl_texts(ftl: Seq<char>, tag: Seq<char>) -> Option<Map<Seq<char>, Option<Seq<char>>>>;

/// A `fluent::FluentBundle` holding one FTL resource.
#[verifier::external_body]
pub struct FtlBundle {
    bundle: fluent::FluentBundle<fluent::FluentResource>,
}

/// The formatted texts a bundle holds, by message id (`None` for a message
/// without a value).
pub uninterp spec fn bundle_texts(b: FtlBundle) -> Map<Seq<char>, Option<Seq<char>>>;

#[verifier::external_type_specification]
#[verifier::external_body]
pub struct ExLanguageIdentifier(unic_langid::LanguageIdentifier);

/// A parsed language tag, with the text it was parsed from.
pub struct Locale {
    id: unic_langid::LanguageIdentifier,
    tag: String,
}

impl Locale {
    /// The text the locale was parsed from.
    pub closed spec fn tag(&self) -> Seq<char> {
        self.tag@
    }
}

/// Parses `tag` as a `unic_langid::LanguageIdentifier` (`FromStr`).
///
/// Trusted: the parse succeeds exactly where the named [`language_tag_valid`]
/// holds; `en` is a valid tag (a two-letter language subtag).
#[verifier::external_body]
fn parse_locale(tag: &str) -> (locale: Option<Locale>)
    ensures
        locale is Some == language_tag_valid(tag@),
        locale matches Some(l) ==> l.tag() == tag@,
        tag@ == "en"@ ==> locale is Some,
{
    let id = tag.parse::<unic_langid::LanguageIdentifier>().ok()?;
    Some(Locale { id, tag: tag.to_string() })
}

/// Loads an FTL source into a new bundle for `locale`:
/// `fluent::FluentResource::try_new`, `FluentBundle::new` and
/// `FluentBundle::add_resource`; `None` where the source has syntax errors or
/// an entry cannot be added.
///
/// Trusted: the texts of the bundle are the named [`ftl_texts`] of the source
/// and the locale's tag, and `None` comes exactly where those are `None`.
#[verifier::external_body]
fn load_ftl(ftl: &str, locale: Locale) -> (bundle: Option<FtlBundle>)
    ensures
        match bundle {
            Some(b) => ftl_texts(ftl@, locale.tag()) == Some(bundle_texts(b)),
            None => ftl_texts(ftl@, locale.tag()) is None,
        },
{
    let resource = fluent::FluentResource::try_new(ftl.to_string()).ok()?;
    let mut bundle = fluent::FluentBundle::new(vec![locale.id]);
    bundle.add_resource(resource).ok()?;
    Some(FtlBundle { bundle })
}

/// Looks `id` up in the bundle (`FluentBundle::get_message`,
/// `FluentMessage::value`) and formats its value without arguments
/// (`FluentBundle::format_pattern`).
///
/// Trusted: the result is the bundle's entry for `id`, as named by
/// [`bundle_texts`].
#[verifier::external_body]
fn message_text(b: &FtlBundle, id: &str) -> (text: Option<Option<String>>)
    ensures
        match text {
            None => !bundle_texts(*b).dom().contains(id@),
            Some(v) => bundle_texts(*b).dom().contains(id@) && bundle_texts(*b)[id@] == opt_view(v),
        },
{
    let message = b.bundle.get_message(id)?;
    Some(message.value().map(|pattern| {
        let mut errors = vec![];
        b.bundle.format_pattern(pattern, None, &mut errors).into_owned()
    }))
}

/// Decodes bytes as UTF-8 text (`String::from_utf8`).
///
/// Trusted: std accepts exactly the valid UTF-8 byte sequences and decodes
/// them as `vstd::utf8` states.
#[verifier::external_body]
fn utf8_text(bytes: Vec<u8>) -> (text: Option<String>)
    ensures
        match text {
            Some(s) => valid_utf8(bytes@) && s@ == decode_utf8(bytes@),
            None => !valid_utf8(bytes@),
        },
{
    String::from_utf8(bytes).ok()
}

/// The locale a catalogue for `lang` is loaded with: `lang` where it is a
/// valid language tag, else `en`.
pub open spec fn effective_tag(lang: Seq<char>) -> Seq<char> {
    if language_tag_valid(lang) {
        lang
    } else {
        "en"@
    }
}

/// The text of message `id` from the FTL source `ftl` loaded for `lang`:
/// its formatted value, or the id itself where the source does not load,
/// the message is missing or has no value.
pub open spec fn ftl_text(ftl: Seq<char>, lang: Seq<char>, id: Seq<char>) -> Seq<char> {
    match ftl_texts(ftl, effective_tag(lang)) {
        Some(texts) => if texts.dom().contains(id) && texts[id] is Some {
            texts[id].unwrap()
        } else {
            id
        },
        None => id,
    }
}

/// The texts that loading `ftl` for `lang` gives every known message id.
pub open spec fn ftl_messages(ftl: Seq<char>, lang: Seq<char>) -> Map<Seq<char>, Seq<char>> {
    Map::new(|k: Seq<char>| message_id_views().contains(k), |k: Seq<char>| ftl_text(ftl, lang, k))
}

/// Adding a pair to an association list inserts it into its map.
proof fn lemma_assoc_push(s: Seq<(String, String)>, k: String, v: String)
    ensures
        assoc_map(s.push((k, v))).map_values(|x: String| x@) =~= assoc_map(s).map_values(
            |x: String| x@,
        ).insert(k@, v@),
{
    assert(s.push((k, v)).drop_last() =~= s);
}

/// The text a bundle gives `id`: its formatted value, or the id itself
/// where the bundle holds no value for it (or there is no bundle).
pub open spec fn bundle_text(bundle: Option<FtlBundle>, id: Seq<char>) -> Seq<char> {
    match bundle {
        Some(b) => if bundle_texts(b).dom().contains(id) && bundle_texts(b)[id] is Some {
            bundle_texts(b)[id].unwrap()
        } else {
            id
        },
        None => id,
    }
}

/// The texts of every known message id as the bundle gives them.
fn fill_messages(bundle: Option<&FtlBundle>) -> (messages: Messages)
    ensures
        messages@ == Map::new(
            |k: Seq<char>| message_id_views().contains(k),
            |k: Seq<char>| bundle_text(
                match bundle {
                    Some(b) => Some(*b),
                    None => None,
                },
                k,
            ),
        ),
{
    let ids = message_ids();
    let ghost idv = message_id_views();
    let ghost bv: Option<FtlBundle> = match bundle {
        Some(b) => Some(*b),
        None => None,
    };
    let mut entries: Vec<(String, String)> = Vec::new();
    let mut i: usize = 0;
    assert(assoc_map(entries@).map_values(|x: String| x@) =~= Map::new(
        |k: Seq<char>| idv.take(0).contains(k),
        |k: Seq<char>| bundle_text(bv, k),
    ));
    while i < ids.len()
        invariant
            i <= ids@.len(),
            ids@.map_values(|s: &'static str| s@) == idv,
            idv == message_id_views(),
            bv == match bundle {
                Some(b) => Some(*b),
                None => None,
            },
            assoc_map(entries@).map_values(|x: String| x@) == Map::new(
                |k: Seq<char>| idv.take(i as int).contains(k),
                |k: Seq<char>| bundle_text(bv, k),
            ),
        decreases ids@.len() - i,
    {
        let id = ids[i];
        assert(idv[i as int] == id@);
        let value = match bundle {
            Some(b) => {
                let found = message_text(b, id);
                match found {
                    Some(Some(v)) => v,
                    _ => id.to_owned(),
                }
            },
            None => id.to_owned(),
        };
        assert(value@ == bundle_text(bv, id@));
        let key = id.to_owned();
        proof {
            lemma_assoc_push(entries@, key, value);
        }
        let ghost old_entries = entries@;
        let ghost pair = (key, value);
        entries.push((key, value));
        proof {
            assert(entries@ =~= old_entries.push(pair));
            assert forall|k: Seq<char>| idv.take(i + 1).contains(k) == (idv.take(i as int).contains(k) || k == id@) by {
                if idv.take(i + 1).contains(k) {
                    let j = choose|j: int| 0 <= j < i + 1 && #[trigger] idv.take(i + 1)[j] == k;
                    if j < i {
                        assert(idv.take(i as int)[j] == k);
                    }
                }
                if idv.take(i as int).contains(k) {
                    let j = choose|j: int| 0 <= j < i && #[trigger] idv.take(i as int)[j] == k;
                    assert(idv.take(i + 1)[j] == k);
                }
                if k == id@ {
                    assert(idv.take(i + 1)[i as int] == k);
                }
            }
            let before = Map::new(
                |k: Seq<char>| idv.take(i as int).contains(k),
                |k: Seq<char>| bundle_text(bv, k),
            );
            let after = Map::new(
                |k: Seq<char>| idv.take(i + 1).contains(k),
                |k: Seq<char>| bundle_text(bv, k),
            );
            assert(assoc_map(entries@).map_values(|x: String| x@) == before.insert(id@, value@));
            assert forall|k: Seq<char>| #[trigger] before.insert(id@, value@).dom().contains(k) == after.dom().contains(k) by {
                assert(idv.take(i + 1).contains(k) == (idv.take(i as int).contains(k) || k == id@));
                assert(before.dom().contains(k) == idv.take(i as int).contains(k));
                assert(after.dom().contains(k) == idv.take(i + 1).contains(k));
            }
            assert(before.insert(id@, value@).dom() =~= after.dom());
            assert forall|k: Seq<char>| #[trigger] after.dom().contains(k) implies before.insert(id@, value@)[k] == after[k] by {
                if k != id@ {
                    assert(before.dom().contains(k));
                }
            }
            assert(before.insert(id@, value@) =~= after);
        }
        i = i + 1;
    }
    assert(idv.take(ids@.len() as int) =~= idv);
    let messages = Messages { entries };
    assert(messages@ =~= Map::new(
        |k: Seq<char>| message_id_views().contains(k),
        |k: Seq<char>| bundle_text(bv, k),
    ));
    messages
}

/// The fallback texts: every known message id stands for itself.
pub fn key_name_fallback() -> (messages: Messages)
    ensures
        messages@ == Map::new(|k: Seq<char>| message_id_views().contains(k), |k: Seq<char>| k),
{
    fill_messages(None)
}

/// The texts of every known message id from the FTL source `ftl` in the
/// language `lang` (loaded for `en` where `lang` is no valid tag); where the
/// source does not load, every id stands for itself.
pub fn parse_ftl(ftl: &str, lang: &str) -> (messages: Messages)
    ensures
        messages@ == ftl_messages(ftl@, lang@),
{
    let locale = match parse_locale(lang) {
        Some(l) => Some(l),
        None => parse_locale("en"),
    };
    let bundle = match locale {
        Some(l) => load_ftl(ftl, l),
        None => None,
    };
    let messages = match &bundle {
        Some(b) => fill_messages(Some(b)),
        None => fill_messages(None),
    };
    assert(messages@ =~= ftl_messages(ftl@, lang@));
    messages
}

/// The compiled-in catalogue: `en` and `nb` texts from their FTL sources.
pub fn bundled_messages(en_ftl: &str, nb_ftl: &str) -> (catalog: Catalog)
    ensures
        catalog@ == Map::<Seq<char>, Map<Seq<char>, Seq<char>>>::empty().insert(
            "en"@,
            ftl_messages(en_ftl@, "en"@),
        ).insert("nb"@, ftl_messages(nb_ftl@, "nb"@)),
        tables_within_ids(catalog@),
{
    let mut languages: Vec<(String, Messages)> = Vec::new();
    languages.push(("en".to_owned(), parse_ftl(en_ftl, "en")));
    languages.push(("nb".to_owned(), parse_ftl(nb_ftl, "nb")));
    let catalog = Catalog { languages };
    proof {
        let l = catalog.languages@;
        assert(l.drop_last().drop_last() =~= Seq::<(String, Messages)>::empty());
        assert(assoc_map(l.drop_last().drop_last()) == Map::<Seq<char>, Messages>::empty());
        assert(assoc_map(l.drop_last()) == Map::<Seq<char>, Messages>::empty().insert("en"@, l[0].1));
        assert(assoc_map(l) == Map::<Seq<char>, Messages>::empty().insert("en"@, l[0].1).insert("nb"@, l[1].1));
        assert(catalog@ =~= Map::<Seq<char>, Map<Seq<char>, Seq<char>>>::empty().insert(
            "en"@,
            ftl_messages(en_ftl@, "en"@),
        ).insert("nb"@, ftl_messages(nb_ftl@, "nb"@)));
        use_type_invariant(&catalog);
        lemma_entries_within_ids(catalog.languages@);
    }
    catalog
}

/// The catalogue after adding languages fetched as FTL bytes, in order: a
/// language whose bytes are valid UTF-8 gets the texts of that source
/// (replacing any earlier ones); other fetches are skipped.
pub open spec fn with_fetched(base: Map<Seq<char>, Map<Seq<char>, Seq<char>>>, fetched: Seq<(String, Vec<u8>)>) -> Map<Seq<char>, Map<Seq<char>, Seq<char>>>
    decreases fetched.len(),
{
    if fetched.len() == 0 {
        base
    } else {
        let prev = with_fetched(base, fetched.drop_last());
        let code = fetched.last().0;
        let bytes = fetched.last().1;
        if valid_utf8(bytes@) {
            prev.insert(code@, ftl_messages(decode_utf8(bytes@), code@))
        } else {
            prev
        }
    }
}

/// Adds languages fetched as FTL bytes to the catalogue: each fetch whose
/// bytes are UTF-8 text is parsed for its language code.
pub fn add_fetched_languages(catalog: &mut Catalog, fetched: Vec<(String, Vec<u8>)>)
    ensures
        final(catalog)@ == with_fetched(old(catalog)@, fetched@),
        tables_within_ids(final(catalog)@),
        forall|j: int|
            0 <= j < fetched@.len() && valid_utf8(fetched@[j].1@) && (forall|k: int|
                j < k < fetched@.len() ==> !((#[trigger] fetched@[k]).0@ == fetched@[j].0@ && valid_utf8(
                    fetched@[k].1@,
                ))) ==> {
                &&& final(catalog)@.dom().contains(#[trigger] fetched@[j].0@)
                &&& final(catalog)@[fetched@[j].0@] == ftl_messages(decode_utf8(fetched@[j].1@), fetched@[j].0@)
            },
{
    proof {
        use_type_invariant(&*catalog);
    }
    let ghost base = catalog@;
    let mut languages: Vec<(String, Messages)> = Vec::new();
    std::mem::swap(&mut languages, &mut catalog.languages);
    let mut i: usize = 0;
    let n = fetched.len();
    let rest = fetched;
    let ghost all = rest@;
    // Walk the fetches in order.
    assert(all.take(0) =~= Seq::<(String, Vec<u8>)>::empty());
    while i < n
        invariant
            i <= n,
            n == all.len(),
            rest@ == all,
            assoc_map(languages@).map_values(|m: Messages| m@) == with_fetched(base, all.take(i as int)),
            entries_within_ids(languages@),
        decreases n - i,
    {
        let code = rest[i].0.clone();
        let bytes = rest[i].1.clone();
        assert(all.take(i + 1).drop_last() =~= all.take(i as int));
        assert(all.take(i + 1).last() == all[i as int]);
        match utf8_text(bytes) {
            Some(ftl) => {
                let parsed = parse_ftl(ftl.as_str(), code.as_str());
                proof {
                    lemma_ftl_messages_cover_the_ids(ftl@, code@);
                }
                let ghost old_languages = languages@;
                languages.push((code, parsed));
                proof {
                    assert(languages@.drop_last() =~= old_languages);
                    assert(assoc_map(languages@).map_values(|m: Messages| m@) =~= with_fetched(
                        base,
                        all.take(i + 1),
                    ));
                    assert forall|k: int| 0 <= k < languages@.len() implies (#[trigger] languages@[k]).1@.dom().subset_of(
                        message_id_set(),
                    ) by {
                        if k < old_languages.len() {
                            assert(languages@[k] == old_languages[k]);
                        }
                    }
                }
            },
            None => {},
        }
        i = i + 1;
    }
    assert(all.take(n as int) =~= all);
    proof {
        lemma_entries_within_ids(languages@);
        assert forall|j: int|
            0 <= j < all.len() && valid_utf8(all[j].1@) && (forall|k: int|
                j < k < all.len() ==> !((#[trigger] all[k]).0@ == all[j].0@ && valid_utf8(all[k].1@)))
            implies with_fetched(base, all).dom().contains(#[trigger] all[j].0@)
                && with_fetched(base, all)[all[j].0@] == ftl_messages(decode_utf8(all[j].1@), all[j].0@) by {
            lemma_last_fetch_decides(base, all, j);
        }
    }
    catalog.languages = languages;
}

/// Fetching languages never unloads one: every language of the base
/// catalogue (the compiled-in `en` and `nb` among them) stays loaded.
pub proof fn lemma_fetching_keeps_languages(
    base: Map<Seq<char>, Map<Seq<char>, Seq<char>>>,
    fetched: Seq<(String, Vec<u8>)>,
    lang: Seq<char>,
)
    requires
        base.dom().contains(lang),
    ensures
        with_fetched(base, fetched).dom().contains(lang),
    decreases fetched.len(),
{
    if fetched.len() > 0 {
        lemma_fetching_keeps_languages(base, fetched.drop_last(), lang);
    }
}

/// Fetching languages keeps every table within the message ids: the
/// tables FTL sources give know only those.
pub proof fn lemma_fetching_keeps_tables_within_ids(
    base: Map<Seq<char>, Map<Seq<char>, Seq<char>>>,
    fetched: Seq<(String, Vec<u8>)>,
)
    requires
        tables_within_ids(base),
    ensures
        tables_within_ids(with_fetched(base, fetched)),
    decreases fetched.len(),
{
    if fetched.len() > 0 {
        lemma_fetching_keeps_tables_within_ids(base, fetched.drop_last());
        let code = fetched.last().0;
        let bytes = fetched.last().1;
        lemma_ftl_messages_cover_the_ids(decode_utf8(bytes@), code@);
    }
}

/// The last fetch of a language whose bytes are UTF-8 decides its table:
/// the language is loaded with the texts of that source, replacing any
/// earlier table, the compiled-in ones included.
pub proof fn lemma_last_fetch_decides(
    base: Map<Seq<char>, Map<Seq<char>, Seq<char>>>,
    fetched: Seq<(String, Vec<u8>)>,
    j: int,
)
    requires
        0 <= j < fetched.len(),
        valid_utf8(fetched[j].1@),
        forall|k: int|
            j < k < fetched.len() ==> !((#[trigger] fetched[k]).0@ == fetched[j].0@ && valid_utf8(
                fetched[k].1@,
            )),
    ensures
        with_fetched(base, fetched).dom().contains(fetched[j].0@),
        with_fetched(base, fetched)[fetched[j].0@] == ftl_messages(decode_utf8(fetched[j].1@), fetched[j].0@),
    decreases fetched.len(),
{
    if j < fetched.len() - 1 {
        let shorter = fetched.drop_last();
        assert forall|k: int| j < k < shorter.len() implies !((#[trigger] shorter[k]).0@ == shorter[j].0@
            && valid_utf8(shorter[k].1@)) by {
            assert(shorter[k] == fetched[k]);
        }
        lemma_last_fetch_decides(base, shorter, j);
        assert(shorter[j] == fetched[j]);
        let last = fetched[fetched.len() - 1];
        assert(!(last.0@ == fetched[j].0@ && valid_utf8(last.1@)));
    }
}

/// A language that no fetch with UTF-8 bytes names keeps its table from the
/// base catalogue, or stays unloaded.
pub proof fn lemma_unfetched_language_kept(
    base: Map<Seq<char>, Map<Seq<char>, Seq<char>>>,
    fetched: Seq<(String, Vec<u8>)>,
    code: Seq<char>,
)
    requires
        forall|k: int| 0 <= k < fetched.len() ==> !((#[trigger] fetched[k]).0@ == code && valid_utf8(fetched[k].1@)),
    ensures
        with_fetched(base, fetched).dom().contains(code) == base.dom().contains(code),
        base.dom().contains(code) ==> with_fetched(base, fetched)[code] == base[code],
    decreases fetched.len(),
{
    if fetched.len() > 0 {
        let shorter = fetched.drop_last();
        assert forall|k: int| 0 <= k < shorter.len() implies !((#[trigger] shorter[k]).0@ == code && valid_utf8(
            shorter[k].1@,
        )) by {
            assert(shorter[k] == fetched[k]);
        }
        lemma_unfetched_language_kept(base, shorter, code);
        let last = fetched[fetched.len() - 1];
        assert(!(last.0@ == code && valid_utf8(last.1@)));
    }
}

/// Before any catalogue is loaded every id reads as itself; a loaded
/// language reads the text its table holds for an id.
pub proof fn lemma_lookup_reads_the_table(
    all: Map<Seq<char>, Map<Seq<char>, Seq<char>>>,
    lang: Seq<char>,
    id: Seq<char>,
)
    ensures
        localised(None, lang, id) == id,
        all.dom().contains(lang) && all[lang].dom().contains(id) ==> localised(Some(all), lang, id)
            == all[lang][id],
        all.dom().contains(lang) && !all[lang].dom().contains(id) ==> localised(Some(all), lang, id) == id,
{
}

/// A language that is not loaded reads as `en`.
pub proof fn lemma_missing_language_reads_as_english(
    all: Map<Seq<char>, Map<Seq<char>, Seq<char>>>,
    lang: Seq<char>,
    id: Seq<char>,
)
    requires
        !all.dom().contains(lang),
    ensures
        localised(Some(all), lang, id) == localised(Some(all), "en"@, id),
{
}

/// An id that no loaded text table knows is its own text; the tables that
/// FTL sources give only know the runtime's message ids, so an unknown id
/// always reads as itself.
pub proof fn lemma_unknown_id_reads_as_itself(
    all: Map<Seq<char>, Map<Seq<char>, Seq<char>>>,
    lang: Seq<char>,
    id: Seq<char>,
)
    requires
        tables_within_ids(all),
        !message_id_views().contains(id),
    ensures
        localised(Some(all), lang, id) == id,
{
    if all.dom().contains(lang) {
        assert(!all[lang].dom().contains(id));
    } else if all.dom().contains("en"@) {
        assert(!all["en"@].dom().contains(id));
    }
}

/// Every table an FTL source gives covers exactly the runtime's message ids.
pub proof fn lemma_ftl_messages_cover_the_ids(ftl: Seq<char>, lang: Seq<char>)
    ensures
        ftl_messages(ftl, lang).dom() == Set::new(|k: Seq<char>| message_id_views().contains(k)),
{
    assert(ftl_messages(ftl, lang).dom() =~= Set::new(|k: Seq<char>| message_id_views().contains(k)));
}

} // verus!
