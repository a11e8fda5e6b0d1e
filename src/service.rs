//! What the embedded HTTP service answers: its fixed endpoint, the status
//! route, and the decisions of the `/hello` route. Serving sockets and reading
//! the store are left to the host, which hands the results back here.
use vstd::prelude::*;
use vstd::string::StringExecFns;
use crate::greeting::{
    greeting_text, hello_message, store_greeting_text, user_name_or_fallback, user_or_fallback,
};
use crate::json::{string_field_object, string_field_object_json};

verus! {

/// The loopback port that the service listens on.
pub const BIND_PORT: u16 = 3030;

/// Where the service listens, and which cross-origin requests it accepts.
#[derive(Debug, Clone, Copy, PartialEq, Eq)]
pub struct ServiceConfig {
    /// The four octets of the IPv4 address.
    pub address: (u8, u8, u8, u8),
    pub port: u16,
    /// Whether requests from any origin are accepted.
    pub permissive_cors: bool,
}

/// The fixed configuration: 127.0.0.1:3030, any origin accepted.
pub fn service_config() -> (r: ServiceConfig)
    ensures
        r.address == (127u8, 0u8, 0u8, 1u8),
        r.port == 3030,
        r.permissive_cors,
{
    ServiceConfig { address: (127, 0, 0, 1), port: BIND_PORT, permissive_cors: true }
}

pub const STATUS_OK: u16 = 200;

pub const STATUS_BAD_REQUEST: u16 = 400;

pub const STATUS_INTERNAL_ERROR: u16 = 500;

/// An HTTP answer: its status code and its body.
#[derive(Debug, Clone, PartialEq, Eq)]
pub struct Response {
    pub status: u16,
    pub body: String,
    /// Whether the body is JSON; else it is plain text.
    pub json: bool,
}

/// The body of `GET /`: `{"status":"running"}`.
pub open spec fn running_body() -> Seq<char> {
    string_field_object("status"@, "running"@)
}

/// The body of a successful `/hello`: `{"message":"<message>"}`.
pub open spec fn message_body(message: Seq<char>) -> Seq<char> {
    string_field_object("message"@, message)
}

/// The body sent when `/hello` comes without a `name` parameter.
pub open spec fn missing_name_body() -> Seq<char> {
    "Failed to deserialize query string: missing field `name`"@
}

/// The body sent when the store could not be read.
pub open spec fn store_failure_body() -> Seq<char> {
    "Failed to read the user store"@
}

/// Answers `GET /`. It takes no store, so it cannot touch one.
pub fn status_response() -> (r: Response)
    ensures
        r.status == 200,
        r.body@ == running_body(),
        r.json,
{
    Response { status: STATUS_OK, body: string_field_object_json("status", "running"), json: true }
}

/// What the `/hello` route does next.
#[derive(Debug, Clone, PartialEq, Eq)]
pub enum HelloStep {
    /// Send this answer; the store is not read.
    Reply(Response),
    /// Read the store's first user, then answer with `hello_with_user`.
    LookUpUser(String),
}

/// Starts a `/hello` request, from its `name` parameter (absent or not) and
/// whether a store is wired into the service.
pub fn hello_request(name: Option<String>, store_wired: bool) -> (r: HelloStep)
    ensures
        match name {
            None => r matches HelloStep::Reply(resp) && resp.status == 400
                && resp.body@ == missing_name_body() && !resp.json,
            Some(n) => if store_wired {
                r matches HelloStep::LookUpUser(m) && m@ == n@
            } else {
                r matches HelloStep::Reply(resp) && resp.status == 200
                    && resp.body@ == message_body(greeting_text(n@)) && resp.json
            },
        },
{
    match name {
        None => HelloStep::Reply(
            Response {
                status: STATUS_BAD_REQUEST,
                body: String::from_str("Failed to deserialize query string: missing field `name`"),
                json: false,
            },
        ),
        Some(n) => if store_wired {
            HelloStep::LookUpUser(n)
        } else {
            let message = hello_message(n.as_str(), None);
            HelloStep::Reply(
                Response {
                    status: STATUS_OK,
                    body: string_field_object_json("message", message.as_str()),
                    json: true,
                },
            )
        },
    }
}

/// What reading `SELECT name FROM users WHERE id = 1` gave.
#[derive(Debug, Clone, PartialEq, Eq)]
pub enum UserLookup {
    /// The row exists, with this name.
    Found(String),
    /// No row has id 1.
    NoRow,
    /// The store could not be read.
    Failed,
}

/// The row's name as the spec functions see it, if one was found.
pub open spec fn lookup_row(lookup: UserLookup) -> Option<Seq<char>> {
    match lookup {
        UserLookup::Found(n) => Some(n@),
        _ => None,
    }
}

/// Finishes a `/hello` request once the store was read: the greeting with
/// the row's name, or with `No user` where no row has id 1.
pub fn hello_with_user(name: &str, lookup: UserLookup) -> (r: Response)
    ensures
        lookup is Failed ==> r.status == 500 && r.body@ == store_failure_body() && !r.json,
        !(lookup is Failed) ==> r.status == 200 && r.json && r.body@ == message_body(
            store_greeting_text(name@, user_or_fallback(lookup_row(lookup))),
        ),
{
    let row = match lookup {
        UserLookup::Found(n) => Some(n),
        UserLookup::NoRow => None,
        UserLookup::Failed => {
            return Response {
                status: STATUS_INTERNAL_ERROR,
                body: String::from_str("Failed to read the user store"),
                json: false,
            };
        },
    };
    let user = user_name_or_fallback(row);
    let message = hello_message(name, Some(user.as_str()));
    Response {
        status: STATUS_OK,
        body: string_field_object_json("message", message.as_str()),
        json: true,
    }
}

} // verus!
