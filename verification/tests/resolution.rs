use bevy_intl::ingest::load_section;
use bevy_intl::{FileMap, I18n, I18nError, I18nPartial, LangMap, SectionMap, SectionValue, Table};

fn section(json: &str) -> SectionMap {
    load_section(json).expect("the test's JSON is valid")
}

fn language(files: Vec<(&str, &str)>) -> FileMap {
    let mut map = FileMap::new();
    for (name, json) in files {
        map.insert(name.to_string(), section(json));
    }
    map
}

fn state(languages: Vec<(&str, FileMap)>, current: &str, fallback: &str) -> I18n {
    let mut langs = LangMap::new();
    let mut codes = Vec::new();
    for (code, files) in languages {
        codes.push(code.to_string());
        langs.insert(code.to_string(), files);
    }
    let mut state = I18n::initialize(Some(langs), Some(codes));
    state.set_lang(current);
    state.set_fallback_lang(fallback);
    state
}

const SENTINEL: &str = "Error missing text";

#[test]
fn hello_round_trip() {
    let state = state(vec![("en", language(vec![("ui", r#"{"hello": "Hi {{name}}"}"#)]))], "en", "en");
    let ui = state.translation("ui").unwrap();
    assert_eq!(ui.t_with_arg("hello", &["Sam".to_string()]), "Hi Sam");
    assert_eq!(ui.t("hello"), "Hi {{name}}");
}

#[test]
fn french_plural_without_english_file() {
    let fr = language(vec![(
        "ui",
        r#"{"greet": {"one": "Salut", "many": "Salut à tous {{count}}"}}"#,
    )]);
    let en = language(vec![]);
    let state = state(vec![("fr", fr), ("en", en)], "fr", "en");
    assert_eq!(state.get_lang(), "fr");
    assert_eq!(state.get_fallback_lang(), "en");
    let ui = state.translation("ui").unwrap();
    assert_eq!(ui.t_with_plurial("greet", 1), "Salut");
    assert_eq!(ui.t_with_plurial("greet", 5), "Salut à tous 5");
    assert_eq!(ui.t_with_plurial("greet", 0), SENTINEL);
    assert_eq!(ui.t("greet"), SENTINEL);
    assert_eq!(ui.t("title"), SENTINEL);
    assert_eq!(ui.t_with_gender("title", "fem"), SENTINEL);
}

#[test]
fn french_falls_through_to_english_file() {
    let fr = language(vec![(
        "ui",
        r#"{"greet": {"one": "Salut", "many": "Salut à tous {{count}}"}}"#,
    )]);
    let en = language(vec![(
        "ui",
        r#"{"title": "Welcome", "guest": {"fem": "Dear Madam", "masc": "Dear Sir"}}"#,
    )]);
    let state = state(vec![("fr", fr), ("en", en)], "fr", "en");
    let ui = state.translation("ui").unwrap();
    assert_eq!(ui.t("title"), "Welcome");
    assert_eq!(ui.t_with_gender("guest", "fem"), "Dear Madam");
    assert_eq!(ui.t_with_plurial("greet", 1), "Salut");
}

#[test]
fn gender_tag_without_variant_gives_sentinel() {
    let en = language(vec![("ui", r#"{"guest": {"masc": "Dear Sir", "fem": "Dear Madam"}}"#)]);
    let state = state(vec![("en", en)], "en", "en");
    let ui = state.translation("ui").unwrap();
    assert_eq!(ui.t_with_gender("guest", "neutral"), SENTINEL);
    assert_eq!(ui.t_with_gender_and_arg("guest", "neutral", &["Kim".to_string()]), SENTINEL);
    assert_eq!(ui.t_with_gender("guest", "masc"), "Dear Sir");
    assert_eq!(ui.t_with_gender("guest", "Masc"), SENTINEL);
}

#[test]
fn key_only_in_fallback_section_is_found() {
    let fr = language(vec![("menu", r#"{"start": "Jouer"}"#)]);
    let en = language(vec![(
        "menu",
        r#"{"start": "Play", "quit": "Quit", "items": {"one": "{{n}} item", "many": "{{n}} items"}}"#,
    )]);
    let state = state(vec![("fr", fr), ("en", en)], "fr", "en");
    let menu = state.translation("menu").unwrap();
    assert_eq!(menu.t("start"), "Jouer");
    assert_eq!(menu.t("quit"), "Quit");
    assert_eq!(menu.t_with_plurial("items", 3), "3 items");
    assert_eq!(menu.t_with_plurial("items", 1), "1 item");
}

#[test]
fn file_only_in_fallback_language_is_used() {
    let fr = language(vec![("menu", r#"{"start": "Jouer"}"#)]);
    let en = language(vec![
        ("menu", r#"{"start": "Play"}"#),
        ("errors", r#"{"io": "Disk error {{code}}", "who": {"fem": "she", "masc": "he"}}"#),
    ]);
    let state = state(vec![("fr", fr), ("en", en)], "fr", "en");
    let errors = state.translation("errors").unwrap();
    assert_eq!(errors.t("io"), "Disk error {{code}}");
    assert_eq!(errors.t_with_arg("io", &["7".to_string()]), "Disk error 7");
    assert_eq!(errors.t_with_gender("who", "fem"), "she");
    assert_eq!(errors.t("start"), SENTINEL);
}

#[test]
fn file_in_no_language_binds_the_error_section() {
    let en = language(vec![("menu", r#"{"start": "Play"}"#)]);
    let state = state(vec![("en", en)], "en", "en");
    let nowhere = state.translation("credits").unwrap();
    assert_eq!(nowhere.t("error"), "error");
    assert_eq!(nowhere.t("start"), SENTINEL);
}

#[test]
fn absent_key_gives_sentinel_for_every_lookup() {
    let en = language(vec![("ui", r#"{"hello": "Hi"}"#)]);
    let state = state(vec![("en", en)], "en", "en");
    let ui = state.translation("ui").unwrap();
    let arguments = vec!["a".to_string(), "b".to_string()];
    assert_eq!(ui.t("nothing"), SENTINEL);
    assert_eq!(ui.t_with_arg("nothing", &arguments), SENTINEL);
    assert_eq!(ui.t_with_plurial("nothing", 0), SENTINEL);
    assert_eq!(ui.t_with_plurial("nothing", 1), SENTINEL);
    assert_eq!(ui.t_with_plurial("nothing", 12), SENTINEL);
    assert_eq!(ui.t_with_gender("nothing", "fem"), SENTINEL);
    assert_eq!(ui.t_with_gender_and_arg("nothing", "fem", &arguments), SENTINEL);
}

#[test]
fn entry_of_the_other_kind_counts_as_missing() {
    let fr = language(vec![("ui", r#"{"name": {"fem": "Elle"}, "age": "{{n}} ans"}"#)]);
    let en = language(vec![("ui", r#"{"name": "Name", "age": {"one": "{{n}} year", "many": "{{n}} years"}}"#)]);
    let state = state(vec![("fr", fr), ("en", en)], "fr", "en");
    let ui = state.translation("ui").unwrap();
    assert_eq!(ui.t("name"), "Name");
    assert_eq!(ui.t_with_gender("name", "fem"), "Elle");
    assert_eq!(ui.t_with_plurial("age", 2), "2 years");
    assert_eq!(ui.t_with_arg("age", &["4".to_string()]), "4 ans");
}

#[test]
fn variant_set_of_the_current_language_is_not_mixed_with_the_fallback() {
    let fr = language(vec![("ui", r#"{"guest": {"fem": "Madame"}}"#)]);
    let en = language(vec![("ui", r#"{"guest": {"fem": "Madam", "masc": "Sir"}}"#)]);
    let state = state(vec![("fr", fr), ("en", en)], "fr", "en");
    let ui = state.translation("ui").unwrap();
    assert_eq!(ui.t_with_gender("guest", "fem"), "Madame");
    assert_eq!(ui.t_with_gender("guest", "masc"), SENTINEL);
}

#[test]
fn plural_buckets_by_count() {
    let en = language(vec![(
        "ui",
        r#"{"apples": {"none": "no apples", "one": "an apple", "many": "{{count}} apples"}}"#,
    )]);
    let state = state(vec![("en", en)], "en", "en");
    let ui = state.translation("ui").unwrap();
    assert_eq!(ui.t_with_plurial("apples", 0), "no apples");
    assert_eq!(ui.t_with_plurial("apples", 1), "an apple");
    assert_eq!(ui.t_with_plurial("apples", 2), "2 apples");
    assert_eq!(ui.t_with_plurial("apples", 1000), "1000 apples");
}

#[test]
fn plural_fills_only_the_first_placeholder() {
    let en = language(vec![(
        "ui",
        r#"{"score": {"many": "{{count}} of {{total}} points", "one": "one point"}}"#,
    )]);
    let state = state(vec![("en", en)], "en", "en");
    let ui = state.translation("ui").unwrap();
    assert_eq!(ui.t_with_plurial("score", 8), "8 of  points");
    assert_eq!(ui.t_with_plurial("score", 1), "one point");
}

#[test]
fn gender_with_arguments_fills_in_order() {
    let en = language(vec![(
        "ui",
        r#"{"thanks": {"fem": "Thank you, Ms {{last}} ({{first}})", "masc": "Thank you, Mr {{last}}"}}"#,
    )]);
    let state = state(vec![("en", en)], "en", "en");
    let ui = state.translation("ui").unwrap();
    let arguments = vec!["Curie".to_string(), "Marie".to_string()];
    assert_eq!(ui.t_with_gender_and_arg("thanks", "fem", &arguments), "Thank you, Ms Curie (Marie)");
    assert_eq!(ui.t_with_gender_and_arg("thanks", "masc", &arguments), "Thank you, Mr Curie");
}

#[test]
fn missing_current_language_is_reported() {
    let en = language(vec![("ui", r#"{"hello": "Hi"}"#)]);
    let mut langs = LangMap::new();
    langs.insert("en".to_string(), en);
    let mut state = I18n::initialize(Some(langs), Some(vec!["en".to_string(), "de".to_string()]));
    state.set_lang("de");
    assert_eq!(state.get_lang(), "de");
    assert_eq!(state.translation("ui").err(), Some(I18nError::LanguageNotFound));
}

#[test]
fn missing_fallback_language_is_reported() {
    let en = language(vec![("ui", r#"{"hello": "Hi"}"#)]);
    let mut langs = LangMap::new();
    langs.insert("en".to_string(), en);
    let mut state = I18n::initialize(Some(langs), Some(vec!["en".to_string(), "de".to_string()]));
    state.set_fallback_lang("de");
    assert_eq!(state.translation("ui").err(), Some(I18nError::FallbackLanguageNotFound));
    state.set_lang("de");
    assert_eq!(state.translation("ui").err(), Some(I18nError::LanguageNotFound));
}

#[test]
fn sections_bound_by_hand() {
    let mut variants = Table::new();
    variants.insert("fem".to_string(), "Chère {{name}}".to_string());
    let mut primary = SectionMap::new();
    primary.insert("dear".to_string(), SectionValue::Variants(variants));
    let mut fallback = SectionMap::new();
    fallback.insert("bye".to_string(), SectionValue::Text("Bye {{name}}".to_string()));
    let partial = I18nPartial::new(&primary, &fallback);
    let arguments = vec!["Ada".to_string()];
    assert_eq!(partial.t_with_gender_and_arg("dear", "fem", &arguments), "Chère Ada");
    assert_eq!(partial.t_with_arg("bye", &arguments), "Bye Ada");
    assert_eq!(partial.t("dear"), SENTINEL);
}
