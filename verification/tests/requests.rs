use matrix_link::json::{quote, write_object};
use matrix_link::utils::{join_room, login, logout, needs_encoding, send_message};
use matrix_link::Config;

fn sample() -> Config {
    Config {
        username: "alice".to_string(),
        password: "s3cret".to_string(),
        server_url: "https://matrix.example.org".to_string(),
        room_name: "!lobby:example.org".to_string(),
    }
}

#[test]
fn login_request_has_exact_url_and_body() {
    let request = login(&sample());
    assert_eq!(request.url, "https://matrix.example.org/_matrix/client/r0/login");
    assert_eq!(
        request.body.as_deref(),
        Some("{\"type\":\"m.login.password\",\"user\":\"alice\",\"password\":\"s3cret\"}")
    );
}

#[test]
fn join_request_has_exact_url_and_no_body() {
    let request = join_room("https://matrix.example.org", "!lobby:example.org", "tok123");
    assert_eq!(
        request.url,
        "https://matrix.example.org/_matrix/client/r0/join/!lobby:example.org?access_token=tok123"
    );
    assert!(request.body.is_none());
}

#[test]
fn join_request_keeps_room_name_unencoded() {
    let request = join_room("http://h", "#room:example.org", "t");
    assert_eq!(request.url, "http://h/_matrix/client/r0/join/#room:example.org?access_token=t");
}

#[test]
fn send_request_has_exact_url_and_body() {
    let request = send_message("https://matrix.example.org", "!abc:example.org", "tok123", "hello");
    assert_eq!(
        request.url,
        "https://matrix.example.org/_matrix/client/r0/rooms/!abc:example.org/send/m.room.message?access_token=tok123"
    );
    assert_eq!(request.body.as_deref(), Some("{\"msgtype\":\"m.text\",\"body\":\"hello\"}"));
}

#[test]
fn logout_request_has_exact_url_and_no_body() {
    let request = logout(&sample(), "tok123");
    assert_eq!(
        request.url,
        "https://matrix.example.org/_matrix/client/r0/logout?access_token=tok123"
    );
    assert!(request.body.is_none());
}

#[test]
fn requests_with_empty_parts() {
    let request = join_room("", "", "");
    assert_eq!(request.url, "/_matrix/client/r0/join/?access_token=");
    let request = send_message("", "", "", "");
    assert_eq!(request.url, "/_matrix/client/r0/rooms//send/m.room.message?access_token=");
    assert_eq!(request.body.as_deref(), Some("{\"msgtype\":\"m.text\",\"body\":\"\"}"));
}

#[test]
fn quote_escapes_each_special_character_once() {
    assert_eq!(quote("plain"), "\"plain\"");
    assert_eq!(quote(""), "\"\"");
    assert_eq!(quote("a\"b"), "\"a\\\"b\"");
    assert_eq!(quote("a\\b"), "\"a\\\\b\"");
    assert_eq!(quote("line1\nline2"), "\"line1\\nline2\"");
    assert_eq!(quote("\r\t"), "\"\\r\\t\"");
    assert_eq!(quote("\u{8}\u{c}"), "\"\\b\\f\"");
    assert_eq!(quote("\u{0}\u{1}\u{1f}\u{b}"), "\"\\u0000\\u0001\\u001f\\u000b\"");
    assert_eq!(quote("\u{7f}/é✓"), "\"\u{7f}/é✓\"");
}

#[test]
fn write_object_joins_members_with_commas() {
    assert_eq!(write_object(&vec![]), "{}");
    assert_eq!(write_object(&vec![("a", "1")]), "{\"a\":\"1\"}");
    assert_eq!(
        write_object(&vec![("a", "1"), ("b", "2"), ("c\n", "\"")]),
        "{\"a\":\"1\",\"b\":\"2\",\"c\\n\":\"\\\"\"}"
    );
}

#[test]
fn login_body_round_trips_through_a_json_parser() {
    let config = Config {
        username: "ali\"ce\\".to_string(),
        password: "p\nw\t\u{1}d é".to_string(),
        server_url: "http://h".to_string(),
        room_name: "r".to_string(),
    };
    let body = login(&config).body.unwrap();
    let parsed: serde_json::Value = serde_json::from_str(&body).unwrap();
    assert_eq!(parsed.get("type").and_then(|v| v.as_str()), Some("m.login.password"));
    assert_eq!(parsed.get("user").and_then(|v| v.as_str()), Some("ali\"ce\\"));
    assert_eq!(parsed.get("password").and_then(|v| v.as_str()), Some("p\nw\t\u{1}d é"));
    assert_eq!(parsed.as_object().unwrap().len(), 3);
}

#[test]
fn message_with_quotes_and_newlines_is_escaped_once() {
    let text = "she said \"hi\"\nand left\\";
    let body = send_message("http://h", "!r:h", "t", text).body.unwrap();
    assert_eq!(
        body,
        "{\"msgtype\":\"m.text\",\"body\":\"she said \\\"hi\\\"\\nand left\\\\\"}"
    );
    let echoed: serde_json::Value = serde_json::from_str(&body).unwrap();
    assert_eq!(echoed.get("body").and_then(|v| v.as_str()), Some(text));
    assert_eq!(echoed.get("msgtype").and_then(|v| v.as_str()), Some("m.text"));
}

#[test]
fn every_control_character_survives_the_round_trip() {
    let mut text = String::new();
    for code in 0u32..0x30 {
        text.push(char::from_u32(code).unwrap());
    }
    let body = send_message("http://h", "!r:h", "t", &text).body.unwrap();
    let echoed: serde_json::Value = serde_json::from_str(&body).unwrap();
    assert_eq!(echoed.get("body").and_then(|v| v.as_str()), Some(text.as_str()));
}

#[test]
fn needs_encoding_flags_reserved_characters() {
    assert!(!needs_encoding("!lobby:example.org"));
    assert!(!needs_encoding("%23lobby:example.org"));
    assert!(!needs_encoding(""));
    assert!(!needs_encoding("azAZ09-._~!$&'()*+,;=:@%"));
    assert!(needs_encoding("#lobby:example.org"));
    assert!(needs_encoding("a/b"));
    assert!(needs_encoding("a?b"));
    assert!(needs_encoding("a b"));
    assert!(needs_encoding("caf\u{e9}"));
    assert!(needs_encoding("tail#"));
}
