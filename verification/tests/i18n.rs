use petclinic::config::i18n::flatten_json;
use petclinic::config::i18n::load_and_flatten_translation;
use petclinic::config::i18n::I18n;
use petclinic::config::i18n::Translation;
use petclinic::config::i18n::TranslationFile;
use petclinic::config::json::Json;
use petclinic::config::json::Member;

fn member(key: &str, value: Json) -> Member {
    Member { key: key.to_string(), value }
}

fn text(value: &str) -> Json {
    Json::Text(value.to_string())
}

#[test]
fn test_flatten_json() {
    let json_value = Json::Object(vec![
        member("welcome", text("Welcome")),
        member("required", text("is required")),
        member("notFound", text("has not been found")),
        member("duplicate", text("is already in use")),
        member("typeMismatch", Json::Object(vec![member("birthDate", text("invalid date"))])),
    ]);

    let mut flat_map = Translation::new();
    flatten_json(&json_value, None, &mut flat_map);

    assert_eq!(flat_map.get("required").unwrap(), "is required");
    assert_eq!(flat_map.get("typeMismatch.birthDate").unwrap(), "invalid date");
}

#[test]
fn flatten_skips_what_is_neither_object_nor_text() {
    let json_value = Json::Object(vec![
        member("count", Json::Other),
        member("a", Json::Object(vec![member("b", Json::Object(vec![member("c", text("deep"))]))])),
    ]);
    let mut flat_map = Translation::new();
    flatten_json(&json_value, None, &mut flat_map);
    assert!(flat_map.get("count").is_none());
    assert!(flat_map.get("a").is_none());
    assert!(flat_map.get("a.b").is_none());
    assert_eq!(flat_map.get("a.b.c").unwrap(), "deep");
}

#[test]
fn flatten_enters_a_text_under_the_prefix_only() {
    let mut flat_map = Translation::new();
    flatten_json(&text("alone"), None, &mut flat_map);
    assert!(flat_map.get("").is_none());
    flatten_json(&text("alone"), Some("key".to_string()), &mut flat_map);
    assert_eq!(flat_map.get("key").unwrap(), "alone");
}

#[test]
fn a_later_member_overrides_an_earlier_one_of_the_same_key() {
    let json_value = Json::Object(vec![
        member("a", Json::Object(vec![member("b", text("nested"))])),
        member("a.b", text("dotted")),
    ]);
    let mut flat_map = Translation::new();
    flatten_json(&json_value, None, &mut flat_map);
    assert_eq!(flat_map.get("a.b").unwrap(), "dotted");
}

#[test]
fn a_document_is_parsed_and_flattened() {
    let content = "{\"welcome\": \"Welcome\", \"typeMismatch\": {\"birthDate\": \"invalid date\"}, \"n\": 3, \"list\": [\"x\"]}";
    let table = load_and_flatten_translation(content).unwrap();
    assert_eq!(table.get("welcome").unwrap(), "Welcome");
    assert_eq!(table.get("typeMismatch.birthDate").unwrap(), "invalid date");
    assert!(table.get("n").is_none());
    assert!(table.get("list").is_none());
    assert!(table.get("typeMismatch").is_none());
}

#[test]
fn a_document_that_is_no_json_is_refused() {
    assert!(load_and_flatten_translation("{\"welcome\": ").is_err());
    assert!(load_and_flatten_translation("").is_err());
}

fn file(language: &str, content: &str) -> TranslationFile {
    TranslationFile { language: language.to_string(), content: content.to_string() }
}

#[test]
fn translate_looks_the_message_up_in_the_language() {
    let i18n = I18n::new(vec![
        file("en", "{\"welcome\": \"Welcome\", \"required\": \"is required\"}"),
        file("ko", "{\"welcome\": \"환영합니다\"}"),
    ])
    .ok()
    .unwrap();
    assert_eq!(i18n.translate("en", "welcome"), "Welcome");
    assert_eq!(i18n.translate("ko", "welcome"), "환영합니다");
    assert_eq!(i18n.translate("ko", "required"), "required");
    assert_eq!(i18n.translate("de", "welcome"), "welcome");
    assert_eq!(i18n.translate("en", "Telephone must be a 10-digit number"), "Telephone must be a 10-digit number");
}

#[test]
fn a_later_document_overrides_an_earlier_one_for_the_same_language() {
    let i18n = I18n::new(vec![
        file("en", "{\"welcome\": \"Welcome\", \"required\": \"is required\"}"),
        file("en", "{\"welcome\": \"Hello\"}"),
    ])
    .ok()
    .unwrap();
    assert_eq!(i18n.translate("en", "welcome"), "Hello");
    assert_eq!(i18n.translate("en", "required"), "required");
}

#[test]
fn loading_reports_the_first_document_that_is_no_json() {
    let result = I18n::new(vec![
        file("en", "{\"welcome\": \"Welcome\"}"),
        file("de", "not json"),
        file("es", "{"),
    ]);
    match result {
        Ok(_) => panic!("the load should fail"),
        Err(error) => {
            assert_eq!(error.language, "de");
            assert!(!error.report.is_empty());
        }
    }
}

#[test]
fn no_documents_give_no_translations() {
    let i18n = I18n::new(Vec::new()).ok().unwrap();
    assert_eq!(i18n.translate("en", "welcome"), "welcome");
}
