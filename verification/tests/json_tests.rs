use bitwarden_credential::json::{encode_create_request, encode_item, u32_digits};
use bitwarden_credential::model::{CreateRequest, LoginRecord, UriMatch, VaultItem};

fn sample_item() -> VaultItem {
    VaultItem {
        id: "11-22".to_string(),
        kind: 1,
        name: "Cargo registry token for example.com".to_string(),
        login: LoginRecord {
            username: None,
            password: "tok-123".to_string(),
            uris: vec![UriMatch { match_rule: Some(1), uri: "https://example.com/index".to_string() }],
        },
    }
}

#[test]
fn digits_render_decimal() {
    assert_eq!(u32_digits(0), "0");
    assert_eq!(u32_digits(7), "7");
    assert_eq!(u32_digits(10), "10");
    assert_eq!(u32_digits(4294967295), "4294967295");
}

#[test]
fn item_encodes_in_wire_order() {
    let s = encode_item(&sample_item());
    assert_eq!(
        s,
        "{\"id\":\"11-22\",\"type\":1,\"name\":\"Cargo registry token for example.com\",\
         \"login\":{\"username\":null,\"password\":\"tok-123\",\
         \"uris\":[{\"match\":1,\"uri\":\"https://example.com/index\"}]}}"
    );
}

#[test]
fn create_request_encodes_in_wire_order() {
    let req = CreateRequest {
        name: "n".to_string(),
        login: LoginRecord {
            username: Some("user".to_string()),
            password: "p".to_string(),
            uris: vec![
                UriMatch { match_rule: Some(1), uri: "https://a".to_string() },
                UriMatch { match_rule: None, uri: "https://b".to_string() },
            ],
        },
        kind: 1,
    };
    let s = encode_create_request(&req);
    assert_eq!(
        s,
        "{\"name\":\"n\",\"login\":{\"username\":\"user\",\"password\":\"p\",\
         \"uris\":[{\"match\":1,\"uri\":\"https://a\"},{\"match\":null,\"uri\":\"https://b\"}]},\
         \"type\":1}"
    );
}

#[test]
fn strings_are_escaped() {
    let mut item = sample_item();
    item.login.password = "a\"b\\c\nd\te\rf\u{1}g".to_string();
    let s = encode_item(&item);
    assert!(s.contains("a\\\"b\\\\c\\nd\\te\\rf\\u0001g"));
}

#[test]
fn encoded_create_request_round_trips_through_a_json_parser() {
    let req = CreateRequest {
        name: "a \"quoted\" name".to_string(),
        login: LoginRecord {
            username: None,
            password: "tok \\ with\nescapes\u{1f}".to_string(),
            uris: vec![UriMatch { match_rule: Some(1), uri: "https://example.com/index".to_string() }],
        },
        kind: 1,
    };
    let text = encode_create_request(&req);
    let v: serde_json::Value = serde_json::from_str(&text).expect("wire payload must be valid JSON");
    assert_eq!(v.get("name").unwrap().as_str().unwrap(), "a \"quoted\" name");
    assert_eq!(v.get("type").unwrap().as_u64().unwrap(), 1);
    let login = v.get("login").unwrap();
    assert!(login.get("username").unwrap().is_null());
    assert_eq!(
        login.get("password").unwrap().as_str().unwrap(),
        "tok \\ with\nescapes\u{1f}"
    );
    let uris = login.get("uris").unwrap().as_array().unwrap();
    assert_eq!(uris.len(), 1);
    assert_eq!(uris[0].get("match").unwrap().as_u64().unwrap(), 1);
    assert_eq!(
        uris[0].get("uri").unwrap().as_str().unwrap(),
        "https://example.com/index"
    );
}

#[test]
fn encoded_item_round_trips_through_a_json_parser() {
    let item = sample_item();
    let text = encode_item(&item);
    let v: serde_json::Value = serde_json::from_str(&text).expect("wire payload must be valid JSON");
    assert_eq!(v.get("id").unwrap().as_str().unwrap(), "11-22");
    assert_eq!(v.get("type").unwrap().as_u64().unwrap(), 1);
    let login = v.get("login").unwrap();
    assert_eq!(login.get("password").unwrap().as_str().unwrap(), "tok-123");
    let uris = login.get("uris").unwrap().as_array().unwrap();
    assert_eq!(uris.len(), 1);
    assert_eq!(
        uris[0].get("uri").unwrap().as_str().unwrap(),
        "https://example.com/index"
    );
}
