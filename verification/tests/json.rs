use monkey_troop::shared::json::{bool_field, number_field, text_field, Field};

fn doc(text: &str) -> serde_json::Value {
    serde_json::from_str(text).unwrap()
}

#[test]
fn text_is_read_where_it_is_text() {
    let d = doc(r#"{"model":"llama3:8b","n":7,"flag":true,"none":null,"list":["a"],"empty":""}"#);
    assert!(matches!(text_field(&d, "model"), Field::Present(t) if t == "llama3:8b"));
    assert!(matches!(text_field(&d, "empty"), Field::Present(t) if t.is_empty()));
    assert!(matches!(text_field(&d, "n"), Field::Mistyped));
    assert!(matches!(text_field(&d, "flag"), Field::Mistyped));
    assert!(matches!(text_field(&d, "none"), Field::Mistyped));
    assert!(matches!(text_field(&d, "list"), Field::Mistyped));
    assert!(matches!(text_field(&d, "absent"), Field::Missing));
    assert!(matches!(text_field(&d, "Model"), Field::Missing));
}

#[test]
fn flags_are_read_where_they_are_flags() {
    let d = doc(r#"{"stream":true,"off":false,"one":1,"word":"true","none":null}"#);
    assert!(matches!(bool_field(&d, "stream"), Field::Present(true)));
    assert!(matches!(bool_field(&d, "off"), Field::Present(false)));
    assert!(matches!(bool_field(&d, "one"), Field::Mistyped));
    assert!(matches!(bool_field(&d, "word"), Field::Mistyped));
    assert!(matches!(bool_field(&d, "none"), Field::Mistyped));
    assert!(matches!(bool_field(&d, "absent"), Field::Missing));
}

#[test]
fn numbers_are_read_where_they_are_unsigned_integers() {
    let d = doc(
        r#"{"exp":9999999999,"zero":0,"max":18446744073709551615,"neg":-1,"real":1.5,"whole":2.0,"big":18446744073709551616,"word":"7"}"#,
    );
    assert!(matches!(number_field(&d, "exp"), Field::Present(9999999999)));
    assert!(matches!(number_field(&d, "zero"), Field::Present(0)));
    assert!(matches!(number_field(&d, "max"), Field::Present(u64::MAX)));
    assert!(matches!(number_field(&d, "neg"), Field::Mistyped));
    assert!(matches!(number_field(&d, "real"), Field::Mistyped));
    assert!(matches!(number_field(&d, "whole"), Field::Mistyped));
    assert!(matches!(number_field(&d, "big"), Field::Mistyped));
    assert!(matches!(number_field(&d, "word"), Field::Mistyped));
    assert!(matches!(number_field(&d, "absent"), Field::Missing));
}

#[test]
fn a_document_that_is_no_object_has_no_fields() {
    for text in [r#""model""#, "7", "true", "null", r#"["model"]"#, "[]"] {
        let d = doc(text);
        assert!(matches!(text_field(&d, "model"), Field::Missing), "{}", text);
        assert!(matches!(bool_field(&d, "stream"), Field::Missing), "{}", text);
        assert!(matches!(number_field(&d, "exp"), Field::Missing), "{}", text);
    }
}

#[test]
fn of_a_name_given_twice_the_last_value_counts() {
    let d = doc(r#"{"model":"a","model":"b"}"#);
    assert!(matches!(text_field(&d, "model"), Field::Present(t) if t == "b"));
}
