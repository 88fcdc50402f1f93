//! The four operations of the protocol: for each, the request that asks for
//! it and the reading of the reply.

use vstd::prelude::*;
use vstd::std_specs::iter::IteratorSpec;
use vstd::string::StringExecFns;
use crate::config::Config;
use crate::error::Failure;
use crate::json::{members_of, object_reads_back, object_text, read_object, write_object};
use crate::parse::{entry, json_members, parse_document, string_member, text_of};
use crate::wire::{judge, verdict, Reply, Request, RequestView};

verus! {

/// Where a login is asked for.
pub open spec fn login_url(server: Seq<char>) -> Seq<char> {
    server + "/_matrix/client/r0/login"@
}

/// What the body of a login request says: the kind of login, the user and
/// the password, in this order.
pub open spec fn login_members(user: Seq<char>, password: Seq<char>) -> Seq<
    (Seq<char>, Seq<char>),
> {
    seq![("type"@, "m.login.password"@), ("user"@, user), ("password"@, password)]
}

/// The body of a login request.
pub open spec fn login_body(user: Seq<char>, password: Seq<char>) -> Seq<char> {
    object_text(login_members(user, password))
}

/// The query by which a request presents the access token `token`. Every
/// request after the login ends in it.
pub open spec fn token_query(token: Seq<char>) -> Seq<char> {
    "?access_token="@ + token
}

/// Where joining `room` is asked for. The room's name stands in the path as
/// it is given.
pub open spec fn join_url(host: Seq<char>, room: Seq<char>, token: Seq<char>) -> Seq<char> {
    host + "/_matrix/client/r0/join/"@ + room + token_query(token)
}

/// Where a message to the room `room_id` is handed in.
pub open spec fn send_url(host: Seq<char>, room_id: Seq<char>, token: Seq<char>) -> Seq<char> {
    host + "/_matrix/client/r0/rooms/"@ + room_id + "/send/m.room.message"@ + token_query(token)
}

/// What the body of a message says: the kind of message and its text, in
/// this order.
pub open spec fn message_members(text: Seq<char>) -> Seq<(Seq<char>, Seq<char>)> {
    seq![("msgtype"@, "m.text"@), ("body"@, text)]
}

/// The body of a message.
pub open spec fn message_body(text: Seq<char>) -> Seq<char> {
    object_text(message_members(text))
}

/// The body of a login request reads back, member for member, as the user
/// and the password it was written for, whatever characters they hold.
pub proof fn login_body_reads_back(user: Seq<char>, password: Seq<char>)
    ensures
        read_object(login_body(user, password)) == Some(login_members(user, password)),
        login_members(user, password)[1] == ("user"@, user),
        login_members(user, password)[2] == ("password"@, password),
{
    object_reads_back(login_members(user, password));
}

/// The body of a message reads back as the text it was written for,
/// whatever characters the text holds: what needs escaping is escaped once,
/// and reading undoes it.
pub proof fn message_body_reads_back(text: Seq<char>)
    ensures
        read_object(message_body(text)) == Some(message_members(text)),
        message_members(text)[1] == ("body"@, text),
{
    object_reads_back(message_members(text));
}

/// Where the end of the session is asked for.
pub open spec fn logout_url(server: Seq<char>, token: Seq<char>) -> Seq<char> {
    server + "/_matrix/client/r0/logout"@ + token_query(token)
}

/// `c` can stand in a segment of a URL's path as it is: a letter or digit of
/// ASCII, one of `-._~!$&'()*+,;=:@`, or the percent sign that begins an
/// encoded character.
pub open spec fn is_path_char(c: char) -> bool {
    ||| 'a' <= c <= 'z'
    ||| 'A' <= c <= 'Z'
    ||| '0' <= c <= '9'
    ||| c == '-' || c == '.' || c == '_' || c == '~'
    ||| c == '!' || c == '$' || c == '&' || c == '\'' || c == '(' || c == ')'
    ||| c == '*' || c == '+' || c == ',' || c == ';' || c == '='
    ||| c == ':' || c == '@' || c == '%'
}

/// Every character of `name` can stand in a path as it is.
pub open spec fn is_path_safe(name: Seq<char>) -> bool {
    forall|i: int| 0 <= i < name.len() ==> is_path_char(#[trigger] name[i])
}

fn path_char(c: char) -> (fits: bool)
    ensures
        fits == is_path_char(c),
{
    ('a' <= c && c <= 'z') || ('A' <= c && c <= 'Z') || ('0' <= c && c <= '9') || c
        == '-' || c == '.' || c == '_' || c == '~' || c == '!' || c == '$' || c == '&' || c
        == '\'' || c == '(' || c == ')' || c == '*' || c == '+' || c == ',' || c == ';' || c == '='
        || c == ':' || c == '@' || c == '%'
}

/// Whether `name` holds a character that has a meaning of its own in a URL,
/// or none at all, so that a request built with it would not reach the room
/// of that name.
pub fn needs_encoding(name: &str) -> (needed: bool)
    ensures
        needed == !is_path_safe(name@),
{
    broadcast use vstd::string::next_postcondition, vstd::string::axiom_spec_iter;

    let mut rest = name.chars();
    let ghost mut seen: Seq<char> = Seq::empty();
    loop
        invariant
            seen + rest.remaining() == name@,
            is_path_safe(seen),
        ensures
            seen == name@,
        decreases name@.len() - seen.len(),
    {
        let ghost before = rest.remaining();
        match rest.next() {
            Some(c) => {
                if !path_char(c) {
                    assert(name@[seen.len() as int] == c);
                    return true;
                }
                proof {
                    assert(seen.push(c) + rest.remaining() =~= seen + before);
                    seen = seen.push(c);
                }
            },
            None => {
                assert(seen =~= seen + before);
                break;
            },
        }
    }
    false
}

/// Ends `url` with the query that presents `access_token`.
fn push_token_query(url: &mut String, access_token: &str)
    ensures
        final(url)@ == old(url)@ + token_query(access_token@),
{
    url.append("?access_token=");
    url.append(access_token);
    assert(url@ =~= old(url)@ + token_query(access_token@));
}

/// The request that logs in with the credentials of `creds`.
pub fn login(creds: &Config) -> (request: Request)
    ensures
        request@ == (RequestView {
            url: login_url(creds.server_url@),
            body: Some(login_body(creds.username@, creds.password@)),
        }),
{
    let mut url = creds.server_url.clone();
    url.append("/_matrix/client/r0/login");
    let members: Vec<(&str, &str)> = vec![
        ("type", "m.login.password"),
        ("user", creds.username.as_str()),
        ("password", creds.password.as_str()),
    ];
    let body = write_object(&members);
    assert(members_of(members@) =~= login_members(creds.username@, creds.password@));
    Request { url, body: Some(body) }
}

/// The request that ends the session of `access_token`.
pub fn logout(creds: &Config, access_token: &str) -> (request: Request)
    ensures
        request@ == (RequestView {
            url: logout_url(creds.server_url@, access_token@),
            body: None,
        }),
{
    let mut url = creds.server_url.clone();
    url.append("/_matrix/client/r0/logout");
    push_token_query(&mut url, access_token);
    Request { url, body: None }
}

/// The request that joins the room `room_name`.
///
/// The name goes into the path unchanged, so a caller whose names may hold
/// characters with a meaning of their own in a URL encodes them first;
/// `needs_encoding` tells whether a name holds one.
pub fn join_room(host: &str, room_name: &str, access_token: &str) -> (request: Request)
    ensures
        request@ == (RequestView { url: join_url(host@, room_name@, access_token@), body: None }),
{
    let mut url = String::from_str(host);
    url.append("/_matrix/client/r0/join/");
    url.append(room_name);
    push_token_query(&mut url, access_token);
    Request { url, body: None }
}

/// The request that posts `message` as a text message to the room `room_id`.
pub fn send_message(host: &str, room_id: &str, access_token: &str, message: &str) -> (request:
    Request)
    ensures
        request@ == (RequestView {
            url: send_url(host@, room_id@, access_token@),
            body: Some(message_body(message@)),
        }),
{
    let mut url = String::from_str(host);
    url.append("/_matrix/client/r0/rooms/");
    url.append(room_id);
    url.append("/send/m.room.message");
    push_token_query(&mut url, access_token);
    let members: Vec<(&str, &str)> = vec![("msgtype", "m.text"), ("body", message)];
    let body = write_object(&members);
    assert(members_of(members@) =~= message_members(message@));
    Request { url, body: Some(body) }
}

/// What a successful login answers with.
#[derive(Debug)]
pub struct LoginResponse {
    pub device_id: String,
    pub user_id: String,
    pub access_token: String,
    pub home_server: String,
}

impl LoginResponse {
    /// Puts the answer together from its four members as they were found. It
    /// is there only if all four are: nothing stands in for a missing one.
    pub fn from_members(
        device_id: Option<String>,
        user_id: Option<String>,
        access_token: Option<String>,
        home_server: Option<String>,
    ) -> (response: Option<LoginResponse>)
        ensures
            response is Some <==> device_id is Some && user_id is Some && access_token is Some
                && home_server is Some,
            response matches Some(r) ==> Some(r.device_id) == device_id && Some(r.user_id)
                == user_id && Some(r.access_token) == access_token && Some(r.home_server)
                == home_server,
    {
        match (device_id, user_id, access_token, home_server) {
            (Some(device_id), Some(user_id), Some(access_token), Some(home_server)) => Some(
                LoginResponse { device_id, user_id, access_token, home_server },
            ),
            _ => None,
        }
    }
}

/// The access token that a document with the string members `members`
/// grants: the member `access_token`, provided that `device_id`, `user_id`
/// and `home_server` are there as well.
pub open spec fn token_in(members: Map<Seq<char>, Seq<char>>) -> Option<Seq<char>> {
    if members.contains_key("device_id"@) && members.contains_key("user_id"@)
        && members.contains_key("home_server"@) {
        entry(members, "access_token"@)
    } else {
        None
    }
}

/// The access token that the body of a login reply grants, if it is a JSON
/// document that grants one.
pub open spec fn granted_token(body: Seq<char>) -> Option<Seq<char>> {
    match json_members(body) {
        Some(members) => token_in(members),
        None => None,
    }
}

/// The room that the body of a join reply names, if it is a JSON document
/// with a string member `room_id`.
pub open spec fn joined_room(body: Seq<char>) -> Option<Seq<char>> {
    match json_members(body) {
        Some(members) => entry(members, "room_id"@),
        None => None,
    }
}

/// What a body amounts to when `found` is what was read from it: a body
/// from which nothing could be read is a `DeserializeError`.
pub open spec fn decoded(found: Option<Seq<char>>) -> Result<Seq<char>, Failure> {
    match found {
        Some(value) => Ok(value),
        None => Err(Failure::DeserializeError),
    }
}

/// What a login reply amounts to: the access token, or the failure. A
/// refusal is `AuthenticationFailed`.
pub open spec fn login_outcome(reply: Reply) -> Result<Seq<char>, Failure> {
    match verdict(reply, Failure::AuthenticationFailed) {
        Ok(body) => decoded(granted_token(body)),
        Err(failure) => Err(failure),
    }
}

/// What a join reply amounts to: the room's id, or the failure. A refusal is
/// `RoomJoinFailed`.
pub open spec fn join_outcome(reply: Reply) -> Result<Seq<char>, Failure> {
    match verdict(reply, Failure::RoomJoinFailed) {
        Ok(body) => decoded(joined_room(body)),
        Err(failure) => Err(failure),
    }
}

/// What a reply without a body to read amounts to.
pub open spec fn plain_outcome(reply: Reply, refusal: Failure) -> Result<(), Failure> {
    match verdict(reply, refusal) {
        Ok(_) => Ok(()),
        Err(failure) => Err(failure),
    }
}

/// A result that carries a string, as one that carries its characters.
pub open spec fn outcome_of(result: Result<String, Failure>) -> Result<Seq<char>, Failure> {
    match result {
        Ok(value) => Ok(value@),
        Err(failure) => Err(failure),
    }
}

/// Reads the answer to a login from the body of a successful reply.
pub fn login_response(body: &str) -> (response: Option<LoginResponse>)
    ensures
        response is Some <==> granted_token(body@) is Some,
        response matches Some(r) ==> {
            &&& json_members(body@) matches Some(members)
            &&& entry(members, "device_id"@) == Some(r.device_id@)
            &&& entry(members, "user_id"@) == Some(r.user_id@)
            &&& entry(members, "access_token"@) == Some(r.access_token@)
            &&& entry(members, "home_server"@) == Some(r.home_server@)
        },
{
    match parse_document(body) {
        None => None,
        Some(doc) => {
            let device_id = string_member(&doc, "device_id");
            let user_id = string_member(&doc, "user_id");
            let access_token = string_member(&doc, "access_token");
            let home_server = string_member(&doc, "home_server");
            LoginResponse::from_members(device_id, user_id, access_token, home_server)
        },
    }
}

/// Reads the room's id from the body of a successful join reply.
pub fn room_id_in(body: &str) -> (room_id: Option<String>)
    ensures
        text_of(room_id) == joined_room(body@),
{
    match parse_document(body) {
        None => None,
        Some(doc) => string_member(&doc, "room_id"),
    }
}

/// Reads the reply to a login request: the access token of a success whose
/// body grants one, or the failure.
pub fn login_result(reply: &Reply) -> (result: Result<String, Failure>)
    ensures
        outcome_of(result) == login_outcome(*reply),
{
    match judge(reply, Failure::AuthenticationFailed) {
        Err(failure) => Err(failure),
        Ok(body) => match login_response(body) {
            Some(response) => Ok(response.access_token),
            None => Err(Failure::DeserializeError),
        },
    }
}

/// Reads the reply to a join request: the id of the room joined, or the
/// failure.
pub fn join_result(reply: &Reply) -> (result: Result<String, Failure>)
    ensures
        outcome_of(result) == join_outcome(*reply),
{
    match judge(reply, Failure::RoomJoinFailed) {
        Err(failure) => Err(failure),
        Ok(body) => match room_id_in(body) {
            Some(room_id) => Ok(room_id),
            None => Err(Failure::DeserializeError),
        },
    }
}

/// Reads the reply to a send request.
pub fn send_result(reply: &Reply) -> (result: Result<(), Failure>)
    ensures
        result == plain_outcome(*reply, Failure::SendFailed),
{
    match judge(reply, Failure::SendFailed) {
        Err(failure) => Err(failure),
        Ok(_) => Ok(()),
    }
}

/// Reads the reply to a logout request.
pub fn logout_result(reply: &Reply) -> (result: Result<(), Failure>)
    ensures
        result == plain_outcome(*reply, Failure::LogoutFailed),
{
    match judge(reply, Failure::LogoutFailed) {
        Err(failure) => Err(failure),
        Ok(_) => Ok(()),
    }
}

} // verus!
