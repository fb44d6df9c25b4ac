use dogapi::{decode_catalog, decode_strings, decode_sub_breeds, read_fixed, ErrorKind};

const FALLBACK: &str = "Something went wrong while reading json";

fn strings(v: &[&str]) -> Vec<String> {
    v.iter().map(|s| s.to_string()).collect()
}

fn fixed(status: &str, message: &str) -> Result<(String, String), String> {
    Ok((status.to_string(), message.to_string()))
}

#[test]
fn text_success() {
    let url = "https://images.dog.ceo/breeds/hound-afghan/n02088094_1003.jpg";
    assert_eq!(read_fixed(fixed("success", url)).unwrap(), url);
}

#[test]
fn text_failure_is_api_error() {
    let e = read_fixed(fixed("error", "Breed not found")).unwrap_err();
    assert_eq!(e.kind, ErrorKind::Api);
    assert_eq!(e.message, "Breed not found");
}

#[test]
fn text_without_message_quotes_the_parser() {
    let e = read_fixed(Err("missing field `message` at line 1 column 18".to_string())).unwrap_err();
    assert_eq!(e.kind, ErrorKind::Decode);
    assert_eq!(
        e.to_string(),
        "Something went wrong while reading json: missing field `message` at line 1 column 18"
    );
}

#[test]
fn text_with_array_message_quotes_the_parser() {
    let reason = "invalid type: sequence, expected a string at line 1 column 34";
    let e = read_fixed(Err(reason.to_string())).unwrap_err();
    assert_eq!(e.kind, ErrorKind::Decode);
    assert_eq!(e.message, format!("{}: {}", FALLBACK, reason));
}

#[test]
fn strings_keep_only_string_items() {
    let body = r#"{"status":"success","message":["a.jpg",1,null,"b.jpg",{"x":2},["c"],"c.jpg"]}"#;
    assert_eq!(decode_strings(body).unwrap(), strings(&["a.jpg", "b.jpg", "c.jpg"]));
}

#[test]
fn strings_of_empty_array() {
    let body = r#"{"status":"success","message":[]}"#;
    assert_eq!(decode_strings(body).unwrap(), Vec::<String>::new());
}

#[test]
fn strings_need_an_array() {
    let e = decode_strings(r#"{"status":"success","message":"a.jpg"}"#).unwrap_err();
    assert_eq!(e.kind, ErrorKind::Decode);
    assert_eq!(e.message, FALLBACK);
}

#[test]
fn breed_not_found_on_every_dynamic_shape() {
    let body = r#"{"status":"error","message":"Breed not found"}"#;
    let e = decode_strings(body).unwrap_err();
    assert_eq!((e.kind, e.message.as_str()), (ErrorKind::Api, "Breed not found"));
    let e = decode_sub_breeds(body).unwrap_err();
    assert_eq!((e.kind, e.message.as_str()), (ErrorKind::Api, "Breed not found"));
    let e = decode_catalog(body).unwrap_err();
    assert_eq!((e.kind, e.message.as_str()), (ErrorKind::Api, "Breed not found"));
}

#[test]
fn failure_without_readable_message_uses_fallback() {
    let body = r#"{"status":"error","message":404}"#;
    let e = decode_strings(body).unwrap_err();
    assert_eq!((e.kind, e.message.as_str()), (ErrorKind::Api, FALLBACK));
    let e = decode_catalog(body).unwrap_err();
    assert_eq!((e.kind, e.message.as_str()), (ErrorKind::Api, FALLBACK));
}

#[test]
fn missing_message_on_dynamic_shapes() {
    let body = r#"{"status":"error"}"#;
    for e in [
        decode_strings(body).unwrap_err(),
        decode_sub_breeds(body).unwrap_err(),
        decode_catalog(body).unwrap_err(),
    ] {
        assert_eq!(e.kind, ErrorKind::Decode);
        assert_eq!(e.message, FALLBACK);
    }
}

#[test]
fn missing_or_odd_status_is_decode_error() {
    let e = decode_strings(r#"{"message":["a"]}"#).unwrap_err();
    assert_eq!((e.kind, e.message.as_str()), (ErrorKind::Decode, FALLBACK));
    let e = decode_strings(r#"{"status":true,"message":["a"]}"#).unwrap_err();
    assert_eq!((e.kind, e.message.as_str()), (ErrorKind::Decode, FALLBACK));
    let e = decode_strings(r#"["success"]"#).unwrap_err();
    assert_eq!((e.kind, e.message.as_str()), (ErrorKind::Decode, FALLBACK));
}

#[test]
fn malformed_json_is_decode_error() {
    let body = "not json";
    let prefix = format!("{}: ", FALLBACK);
    for e in [
        decode_strings(body).unwrap_err(),
        decode_sub_breeds(body).unwrap_err(),
        decode_catalog(body).unwrap_err(),
    ] {
        assert_eq!(e.kind, ErrorKind::Decode);
        assert!(e.message.starts_with(&prefix));
        assert!(e.message.len() > prefix.len());
    }
}

#[test]
fn empty_sub_breed_list_is_absent() {
    let body = r#"{"status":"success","message":[]}"#;
    assert_eq!(decode_sub_breeds(body).unwrap(), None);
}

#[test]
fn sub_breed_list_present() {
    let body = r#"{"status":"success","message":["afghan","basset",7,"blood"]}"#;
    assert_eq!(
        decode_sub_breeds(body).unwrap(),
        Some(strings(&["afghan", "basset", "blood"]))
    );
}

#[test]
fn sub_breeds_need_an_array() {
    let e = decode_sub_breeds(r#"{"status":"success","message":{"a":[]}}"#).unwrap_err();
    assert_eq!((e.kind, e.message.as_str()), (ErrorKind::Decode, FALLBACK));
}

#[test]
fn catalog_entries() {
    let body = r#"{"status":"success","message":{"affenpinscher":[],"bulldog":["boston","english","french"],"odd":"x","hound":["afghan"]}}"#;
    let catalog = decode_catalog(body).unwrap();
    assert_eq!(
        catalog,
        vec![
            ("affenpinscher".to_string(), None),
            ("bulldog".to_string(), Some(strings(&["boston", "english", "french"]))),
            ("hound".to_string(), Some(strings(&["afghan"]))),
        ]
    );
}

#[test]
fn catalog_keeps_each_breed_once() {
    let body = r#"{"status":"success","message":{"hound":["a"],"hound":["b","c"]}}"#;
    let catalog = decode_catalog(body).unwrap();
    assert_eq!(catalog, vec![("hound".to_string(), Some(strings(&["b", "c"])))]);
}

#[test]
fn catalog_needs_an_object() {
    let e = decode_catalog(r#"{"status":"success","message":["a"]}"#).unwrap_err();
    assert_eq!((e.kind, e.message.as_str()), (ErrorKind::Decode, FALLBACK));
}
