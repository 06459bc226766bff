use ma_runtime::i18n::{
    add_fetched_languages, bundled_messages, has_lang, init, key_name_fallback, message_ids, parse_ftl,
    runtime_lang, t, t_lang, I18n, Messages,
};

const EN: &str = "started = Runtime started\nping-received = Ping received\nftl-loaded = Loaded { $lang }\n";
const NB: &str = "started = Kjøretid startet\n";

fn text_of(m: &Messages, id: &str) -> Option<String> {
    m.entries.iter().rev().find(|(k, _)| k == id).map(|(_, v)| v.clone())
}

#[test]
fn fallback_maps_every_id_to_itself() {
    let m = key_name_fallback();
    let ids = message_ids();
    assert_eq!(ids.len(), 53);
    assert_eq!(m.entries.len(), ids.len());
    for id in ids {
        assert_eq!(text_of(&m, id).as_deref(), Some(id));
    }
}

#[test]
fn parse_ftl_takes_values_and_falls_back_to_ids() {
    let m = parse_ftl(EN, "en");
    assert_eq!(text_of(&m, "started").as_deref(), Some("Runtime started"));
    assert_eq!(text_of(&m, "ping-received").as_deref(), Some("Ping received"));
    assert_eq!(text_of(&m, "shutdown-complete").as_deref(), Some("shutdown-complete"));
    assert_eq!(text_of(&m, "not-a-known-id"), None);
    assert_eq!(m.entries.len(), 53);
}

#[test]
fn broken_ftl_gives_key_names() {
    let m = parse_ftl("started = \n= = =\n{", "en");
    assert_eq!(text_of(&m, "started").as_deref(), Some("started"));
}

#[test]
fn invalid_language_tag_still_loads() {
    let m = parse_ftl(EN, "!!");
    assert_eq!(text_of(&m, "started").as_deref(), Some("Runtime started"));
}

#[test]
fn lookups_fall_back_to_english_then_to_the_id() {
    let mut i18n = I18n::new();
    assert_eq!(t(&i18n, "started"), "started");
    assert_eq!(runtime_lang(&i18n), "en");
    assert!(!has_lang(&i18n, "en"));
    init(&mut i18n, "nb", bundled_messages(EN, NB));
    assert!(has_lang(&i18n, "en"));
    assert!(has_lang(&i18n, "nb"));
    assert!(!has_lang(&i18n, "de"));
    assert_eq!(runtime_lang(&i18n), "nb");
    assert_eq!(t(&i18n, "started"), "Kjøretid startet");
    assert_eq!(t_lang(&i18n, "en", "started"), "Runtime started");
    assert_eq!(t_lang(&i18n, "de", "started"), "Runtime started");
    assert_eq!(t_lang(&i18n, "nb", "ping-received"), "ping-received");
    assert_eq!(t_lang(&i18n, "en", "pong-sent"), "pong-sent");
}

#[test]
fn init_sets_only_once() {
    let mut i18n = I18n::new();
    init(&mut i18n, "en", bundled_messages(EN, NB));
    init(&mut i18n, "nb", bundled_messages("", ""));
    assert_eq!(runtime_lang(&i18n), "en");
    assert_eq!(t(&i18n, "started"), "Runtime started");
}

#[test]
fn fetched_languages_are_added_when_utf8() {
    let mut catalog = bundled_messages(EN, NB);
    add_fetched_languages(
        &mut catalog,
        vec![
            ("de".to_string(), "started = Gestartet\n".as_bytes().to_vec()),
            ("fr".to_string(), vec![0xff, 0xfe]),
            ("nb".to_string(), "started = Startet på nytt\n".as_bytes().to_vec()),
        ],
    );
    let mut i18n = I18n::new();
    init(&mut i18n, "de", catalog);
    assert_eq!(t(&i18n, "started"), "Gestartet");
    assert!(!has_lang(&i18n, "fr"));
    assert_eq!(t_lang(&i18n, "nb", "started"), "Startet på nytt");
}

#[test]
fn fetching_never_unloads_the_bundled_languages() {
    let mut catalog = bundled_messages(EN, NB);
    add_fetched_languages(&mut catalog, vec![("fr".to_string(), vec![0xc3]), ("de".to_string(), b"x = y\n".to_vec())]);
    let mut i18n = I18n::new();
    init(&mut i18n, "en", catalog);
    assert!(has_lang(&i18n, "en"));
    assert!(has_lang(&i18n, "nb"));
    assert!(has_lang(&i18n, "de"));
    assert!(!has_lang(&i18n, "fr"));
}
