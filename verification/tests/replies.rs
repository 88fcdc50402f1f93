use matrix_link::parse::{parse_document, string_member};
use matrix_link::status::{classify, StatusClass};
use matrix_link::utils::{
    join_result, login_response, login_result, logout_result, room_id_in, send_result,
    LoginResponse,
};
use matrix_link::wire::judge;
use matrix_link::{Failure, Reply};

const LOGIN_BODY: &str = "{\"access_token\":\"tok123\",\"device_id\":\"DEV\",\"user_id\":\"@alice:example.org\",\"home_server\":\"example.org\"}";

fn answered(status: u16, body: &str) -> Reply {
    Reply::Answered { status, body: body.to_string() }
}

#[test]
fn classify_sorts_by_hundreds() {
    assert_eq!(classify(200), StatusClass::Success);
    assert_eq!(classify(204), StatusClass::Success);
    assert_eq!(classify(299), StatusClass::Success);
    assert_eq!(classify(300), StatusClass::Other);
    assert_eq!(classify(399), StatusClass::Other);
    assert_eq!(classify(400), StatusClass::ClientError);
    assert_eq!(classify(401), StatusClass::ClientError);
    assert_eq!(classify(499), StatusClass::ClientError);
    assert_eq!(classify(500), StatusClass::ServerError);
    assert_eq!(classify(599), StatusClass::ServerError);
    assert_eq!(classify(600), StatusClass::Other);
    assert_eq!(classify(199), StatusClass::Other);
    assert_eq!(classify(100), StatusClass::Other);
    assert_eq!(classify(0), StatusClass::Other);
    assert_eq!(classify(u16::MAX), StatusClass::Other);
}

#[test]
fn judge_hands_out_the_body_of_a_success() {
    assert_eq!(judge(&answered(200, "text"), Failure::SendFailed), Ok("text"));
    assert_eq!(judge(&answered(404, "text"), Failure::SendFailed), Err(Failure::SendFailed));
    assert_eq!(judge(&answered(404, "text"), Failure::LogoutFailed), Err(Failure::LogoutFailed));
    assert_eq!(judge(&answered(503, "text"), Failure::SendFailed), Err(Failure::ServerError));
    assert_eq!(judge(&answered(302, "text"), Failure::SendFailed), Err(Failure::TransportError));
    assert_eq!(judge(&Reply::Lost, Failure::SendFailed), Err(Failure::TransportError));
}

#[test]
fn login_result_returns_the_access_token() {
    assert_eq!(login_result(&answered(200, LOGIN_BODY)), Ok("tok123".to_string()));
}

#[test]
fn login_result_ignores_members_it_does_not_know() {
    let body = "{\"well_known\":{\"a\":1},\"access_token\":\"t\",\"device_id\":\"d\",\"user_id\":\"u\",\"home_server\":\"h\",\"expires\":12}";
    assert_eq!(login_result(&answered(201, body)), Ok("t".to_string()));
}

#[test]
fn login_result_unescapes_the_token() {
    let body = "{\"access_token\":\"a\\\"b\\u0041\",\"device_id\":\"d\",\"user_id\":\"u\",\"home_server\":\"h\"}";
    assert_eq!(login_result(&answered(200, body)), Ok("a\"bA".to_string()));
}

#[test]
fn login_result_maps_each_status_class() {
    assert_eq!(login_result(&answered(401, LOGIN_BODY)), Err(Failure::AuthenticationFailed));
    assert_eq!(login_result(&answered(403, "")), Err(Failure::AuthenticationFailed));
    assert_eq!(login_result(&answered(500, LOGIN_BODY)), Err(Failure::ServerError));
    assert_eq!(login_result(&answered(301, LOGIN_BODY)), Err(Failure::TransportError));
    assert_eq!(login_result(&answered(100, LOGIN_BODY)), Err(Failure::TransportError));
    assert_eq!(login_result(&Reply::Lost), Err(Failure::TransportError));
}

#[test]
fn login_result_rejects_bodies_off_the_schema() {
    for body in [
        "",
        "not json",
        "{}",
        "[]",
        "\"tok123\"",
        "{\"access_token\":\"t\"}",
        "{\"access_token\":\"t\",\"device_id\":\"d\",\"user_id\":\"u\"}",
        "{\"access_token\":7,\"device_id\":\"d\",\"user_id\":\"u\",\"home_server\":\"h\"}",
        "{\"access_token\":\"t\",\"device_id\":null,\"user_id\":\"u\",\"home_server\":\"h\"}",
        "{\"access_token\":\"t\",\"device_id\":\"d\",\"user_id\":\"u\",\"home_server\":\"h\"} x",
    ] {
        assert_eq!(login_result(&answered(200, body)), Err(Failure::DeserializeError), "{body}");
    }
}

#[test]
fn login_response_holds_all_four_members() {
    let response = login_response(LOGIN_BODY).unwrap();
    assert_eq!(response.access_token, "tok123");
    assert_eq!(response.device_id, "DEV");
    assert_eq!(response.user_id, "@alice:example.org");
    assert_eq!(response.home_server, "example.org");
    assert!(login_response("{\"access_token\":\"tok123\"}").is_none());
}

#[test]
fn login_response_needs_every_member() {
    let some = |s: &str| Some(s.to_string());
    let full = LoginResponse::from_members(some("d"), some("u"), some("t"), some("h")).unwrap();
    assert_eq!(full.device_id, "d");
    assert_eq!(full.user_id, "u");
    assert_eq!(full.access_token, "t");
    assert_eq!(full.home_server, "h");
    assert!(LoginResponse::from_members(None, some("u"), some("t"), some("h")).is_none());
    assert!(LoginResponse::from_members(some("d"), None, some("t"), some("h")).is_none());
    assert!(LoginResponse::from_members(some("d"), some("u"), None, some("h")).is_none());
    assert!(LoginResponse::from_members(some("d"), some("u"), some("t"), None).is_none());
    assert!(LoginResponse::from_members(None, None, None, None).is_none());
}

#[test]
fn join_result_returns_the_room_id() {
    let body = "{\"room_id\":\"!abc:example.org\"}";
    assert_eq!(join_result(&answered(200, body)), Ok("!abc:example.org".to_string()));
    assert_eq!(room_id_in(body), Some("!abc:example.org".to_string()));
    assert_eq!(room_id_in(" { \"other\" : 1 , \"room_id\" : \"r\" } "), Some("r".to_string()));
}

#[test]
fn join_result_maps_each_failure() {
    let body = "{\"room_id\":\"!abc:example.org\"}";
    assert_eq!(join_result(&answered(403, body)), Err(Failure::RoomJoinFailed));
    assert_eq!(join_result(&answered(404, "")), Err(Failure::RoomJoinFailed));
    assert_eq!(join_result(&answered(502, body)), Err(Failure::ServerError));
    assert_eq!(join_result(&answered(304, body)), Err(Failure::TransportError));
    assert_eq!(join_result(&Reply::Lost), Err(Failure::TransportError));
    assert_eq!(join_result(&answered(200, "{}")), Err(Failure::DeserializeError));
    assert_eq!(join_result(&answered(200, "{\"room_id\":5}")), Err(Failure::DeserializeError));
    assert_eq!(join_result(&answered(200, "{\"room_id\":")), Err(Failure::DeserializeError));
    assert_eq!(room_id_in("{}"), None);
    assert_eq!(room_id_in("nonsense"), None);
}

#[test]
fn send_result_maps_each_status_class() {
    assert_eq!(send_result(&answered(200, "{\"event_id\":\"$e\"}")), Ok(()));
    assert_eq!(send_result(&answered(200, "not even json")), Ok(()));
    assert_eq!(send_result(&answered(403, "")), Err(Failure::SendFailed));
    assert_eq!(send_result(&answered(500, "")), Err(Failure::ServerError));
    assert_eq!(send_result(&answered(302, "")), Err(Failure::TransportError));
    assert_eq!(send_result(&Reply::Lost), Err(Failure::TransportError));
}

#[test]
fn logout_result_maps_each_status_class() {
    assert_eq!(logout_result(&answered(200, "{}")), Ok(()));
    assert_eq!(logout_result(&answered(401, "")), Err(Failure::LogoutFailed));
    assert_eq!(logout_result(&answered(500, "")), Err(Failure::ServerError));
    assert_eq!(logout_result(&answered(199, "")), Err(Failure::TransportError));
    assert_eq!(logout_result(&Reply::Lost), Err(Failure::TransportError));
}

#[test]
fn string_member_finds_strings_only() {
    let doc = parse_document("{\"a\":\"x\",\"b\":1,\"c\":[\"y\"],\"d\":{\"a\":\"z\"},\"e\":\"\"}").unwrap();
    assert_eq!(string_member(&doc, "a"), Some("x".to_string()));
    assert_eq!(string_member(&doc, "b"), None);
    assert_eq!(string_member(&doc, "c"), None);
    assert_eq!(string_member(&doc, "d"), None);
    assert_eq!(string_member(&doc, "e"), Some(String::new()));
    assert_eq!(string_member(&doc, "missing"), None);
    let list = parse_document("[\"a\"]").unwrap();
    assert_eq!(string_member(&list, "a"), None);
    assert!(parse_document("{\"a\":").is_none());
    assert!(parse_document("").is_none());
}
