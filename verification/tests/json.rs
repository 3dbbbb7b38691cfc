use agent::Json;

#[test]
fn parsing_gives_the_compact_text() {
    let value = Json::parse("{ \"a\" : [ 1, 2.50 ] ,\n\"b\":null}").expect("valid JSON");
    assert_eq!(value.text(), "{\"a\":[1,2.5],\"b\":null}");
}

#[test]
fn texts_that_are_no_json_are_rejected() {
    assert_eq!(Json::parse("{"), None);
    assert_eq!(Json::parse(""), None);
    assert_eq!(Json::parse("not json"), None);
    assert_eq!(Json::parse("1 2"), None);
}

#[test]
fn null_is_a_value_of_its_own() {
    assert_eq!(Json::parse(" null "), Some(Json::null()));
    assert_ne!(Json::parse("\"null\""), Some(Json::null()));
}

#[test]
fn a_single_field_reads_back() {
    let value = "quotes \" and \\ and \n and \u{1F600}";
    let object = Json::single_field("expression", value);
    assert_eq!(object.string_field("expression").as_deref(), Some(value));
    assert_eq!(object.string_field("other"), None);
    assert_eq!(
        Json::single_field("expression", "2 + 3").text(),
        "{\"expression\":\"2 + 3\"}"
    );
}

#[test]
fn only_strings_count_as_string_fields() {
    let object = Json::parse("{\"n\": 1, \"s\": \"text\"}").expect("valid JSON");
    assert_eq!(object.string_field("n"), None);
    assert_eq!(object.string_field("s").as_deref(), Some("text"));
    assert_eq!(Json::null().string_field("s"), None);
}
