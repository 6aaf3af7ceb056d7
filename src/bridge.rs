//! The HTTP bridge: how a call to the worker is planned, and how what came
//! back becomes a JSON value or a classified error.
use vstd::prelude::*;

use crate::outside::{canonical_reason_of, json_from_bytes, parse_json, reason_phrase};
use crate::text::{decimal, decimal_text, str_equals};

verus! {

broadcast use vstd::string::group_string_axioms;

/// The loopback address and port that the worker listens on.
pub const WORKER_BASE_URL: &'static str = "http://127.0.0.1:5006";

/// The request methods that the bridge sends.
#[derive(Clone, Copy, Debug, PartialEq, Eq, Structural)]
pub enum Method {
    Get,
    Post,
    Put,
    Delete,
}

/// The method that a method name stands for, if the bridge sends it.
pub open spec fn method_named(s: Seq<char>) -> Option<Method> {
    if s == "GET"@ {
        Some(Method::Get)
    } else if s == "POST"@ {
        Some(Method::Post)
    } else if s == "PUT"@ {
        Some(Method::Put)
    } else if s == "DELETE"@ {
        Some(Method::Delete)
    } else {
        None
    }
}

impl Method {
    /// Whether a request of this method carries the payload it is given.
    pub open spec fn carries_body(self) -> bool {
        self is Post || self is Put
    }

    pub open spec fn spec_name(self) -> Seq<char> {
        match self {
            Method::Get => "GET"@,
            Method::Post => "POST"@,
            Method::Put => "PUT"@,
            Method::Delete => "DELETE"@,
        }
    }

    /// The method's name on the wire.
    pub fn name(&self) -> (r: &'static str)
        ensures
            r@ == self.spec_name(),
    {
        match self {
            Method::Get => "GET",
            Method::Post => "POST",
            Method::Put => "PUT",
            Method::Delete => "DELETE",
        }
    }

    pub fn accepts_body(&self) -> (r: bool)
        ensures
            r == self.carries_body(),
    {
        match self {
            Method::Post | Method::Put => true,
            Method::Get | Method::Delete => false,
        }
    }
}

/// Reads a method name; only GET, POST, PUT and DELETE are known.
pub fn parse_method(s: &str) -> (r: Option<Method>)
    ensures
        r == method_named(s@),
{
    if str_equals(s, "GET") {
        Some(Method::Get)
    } else if str_equals(s, "POST") {
        Some(Method::Post)
    } else if str_equals(s, "PUT") {
        Some(Method::Put)
    } else if str_equals(s, "DELETE") {
        Some(Method::Delete)
    } else {
        None
    }
}

/// Why a call to the worker did not give a value.
#[derive(Clone, Debug)]
pub enum BridgeError {
    /// The method is not one that the bridge sends; nothing was sent.
    UnsupportedMethod(String),
    /// No response came back; the transport's own message.
    Transport(String),
    /// The worker answered with a status outside 200 to 299.
    Api(u16),
}

/// The status as HTTP writes it: the code and its reason phrase.
pub open spec fn status_text(code: u16) -> Seq<char> {
    decimal(code as nat) + " "@ + match canonical_reason_of(code) {
        Some(p) => p,
        None => "<unknown status code>"@,
    }
}

pub open spec fn api_error_text(code: u16) -> Seq<char> {
    "API Error: "@ + status_text(code)
}

impl BridgeError {
    pub open spec fn spec_message(&self) -> Seq<char> {
        match self {
            BridgeError::UnsupportedMethod(m) => "Unsupported method: "@ + m@,
            BridgeError::Transport(m) => m@,
            BridgeError::Api(code) => api_error_text(*code),
        }
    }

    /// The error as the single line of text that callers receive.
    pub fn message(&self) -> (r: String)
        ensures
            r@ == self.spec_message(),
    {
        match self {
            BridgeError::UnsupportedMethod(m) => {
                let mut s = String::from_str("Unsupported method: ");
                s.append(m.as_str());
                s
            },
            BridgeError::Transport(m) => m.clone(),
            BridgeError::Api(code) => {
                let mut s = String::from_str("API Error: ");
                s.append(decimal_text(*code).as_str());
                s.append(" ");
                match reason_phrase(*code) {
                    Some(p) => s.append(p.as_str()),
                    None => s.append("<unknown status code>"),
                }
                assert(s@ =~= api_error_text(*code));
                s
            },
        }
    }
}

/// The address of a route of the worker: the base address followed by the
/// path as given, query included.
pub open spec fn worker_url(path: Seq<char>) -> Seq<char> {
    WORKER_BASE_URL@ + path
}

pub fn worker_url_of(path: &str) -> (r: String)
    ensures
        r@ == worker_url(path@),
{
    let mut s = String::from_str(WORKER_BASE_URL);
    s.append(path);
    s
}

/// One call to send to the worker: the method, the full address, and the
/// payload, present only for a method that carries one.
#[derive(Clone, Debug)]
pub struct RequestPlan {
    pub method: Method,
    pub url: String,
    pub body: Option<serde_json::Value>,
}

/// What `plan_request` owes for a method it knows.
pub open spec fn plans(
    p: RequestPlan,
    m: Method,
    path: Seq<char>,
    body: Option<serde_json::Value>,
) -> bool {
    &&& p.method == m
    &&& p.url@ == worker_url(path)
    &&& p.body == (if m.carries_body() { body } else { None })
}

/// Plans one call of a known method.
pub fn plan_for(m: Method, path: &str, body: Option<serde_json::Value>) -> (r: RequestPlan)
    ensures
        plans(r, m, path@, body),
{
    let body = if m.accepts_body() {
        body
    } else {
        None
    };
    RequestPlan { method: m, url: worker_url_of(path), body }
}

/// Plans one call: refused at once, with nothing to send, where the method is
/// not one of GET, POST, PUT and DELETE.
pub fn plan_request(method: &str, path: &str, body: Option<serde_json::Value>) -> (r: Result<
    RequestPlan,
    BridgeError,
>)
    ensures
        match method_named(method@) {
            Some(m) => r is Ok && plans(r->Ok_0, m, path@, body),
            None => r is Err && r->Err_0 is UnsupportedMethod && r->Err_0->UnsupportedMethod_0@
                == method@,
        },
{
    match parse_method(method) {
        Some(m) => Ok(plan_for(m, path, body)),
        None => Err(BridgeError::UnsupportedMethod(String::from_str(method))),
    }
}

/// A GET of a route, with no payload: the plan that `plan_request` makes for
/// "GET".
pub fn plan_get(path: &str) -> (r: RequestPlan)
    ensures
        plans(r, Method::Get, path@, None),
{
    plan_request("GET", path, None).unwrap()
}

/// A POST of a route with a JSON payload: the plan that `plan_request` makes
/// for "POST".
pub fn plan_post(path: &str, body: serde_json::Value) -> (r: RequestPlan)
    ensures
        plans(r, Method::Post, path@, Some(body)),
{
    proof {
        reveal_strlit("GET");
        reveal_strlit("POST");
        assert("POST"@.len() != "GET"@.len());
    }
    assert(method_named("POST"@) == Some(Method::Post));
    plan_request("POST", path, Some(body)).unwrap()
}

/// What came back from the worker: the status, the announced body length if
/// any, and the body as read, or `None` where it was not read in full (the
/// body of a failed status need not be read).
#[derive(Clone, Debug)]
pub struct ResponseParts {
    pub status: u16,
    pub content_length: Option<u64>,
    pub body: Option<Vec<u8>>,
}

pub open spec fn is_success_status(code: u16) -> bool {
    200 <= code <= 299
}

/// Whether a status counts as success: 200 to 299.
pub fn is_success(code: u16) -> (r: bool)
    ensures
        r == is_success_status(code),
{
    200 <= code && code <= 299
}

/// The empty JSON object, `{}`.
pub open spec fn empty_object() -> serde_json::Value {
    json_from_bytes(seq![123u8, 125u8])->Some_0
}

pub open spec fn bytes_of(body: Option<Vec<u8>>) -> Option<Seq<u8>> {
    match body {
        Some(b) => Some(b@),
        None => None,
    }
}

/// The value of a successful response: `{}` where the body is announced
/// empty, was not read, or is not JSON; else the JSON it holds, unchanged.
pub open spec fn success_value(content_length: Option<u64>, body: Option<Seq<u8>>) -> serde_json::Value {
    if content_length == Some(0u64) {
        empty_object()
    } else {
        match body {
            Some(b) => match json_from_bytes(b) {
                Some(v) => v,
                None => empty_object(),
            },
            None => empty_object(),
        }
    }
}

/// Builds the empty JSON object.
pub fn new_empty_object() -> (r: serde_json::Value)
    ensures
        r == empty_object(),
{
    let text: Vec<u8> = vec![123u8, 125u8];
    assert(text@ =~= seq![123u8, 125u8]);
    parse_json(text.as_slice()).unwrap()
}

/// Turns what came back into the call's result: the API error where the
/// status is not a success; else the value of the body.
pub fn interpret_response(parts: ResponseParts) -> (r: Result<serde_json::Value, BridgeError>)
    ensures
        is_success_status(parts.status) ==> r == Ok::<serde_json::Value, BridgeError>(
            success_value(parts.content_length, bytes_of(parts.body)),
        ),
        !is_success_status(parts.status) ==> r == Err::<serde_json::Value, BridgeError>(
            BridgeError::Api(parts.status),
        ),
{
    if !is_success(parts.status) {
        return Err(BridgeError::Api(parts.status));
    }
    if parts.content_length == Some(0u64) {
        return Ok(new_empty_object());
    }
    match parts.body {
        Some(b) => match parse_json(b.as_slice()) {
            Some(v) => Ok(v),
            None => Ok(new_empty_object()),
        },
        None => Ok(new_empty_object()),
    }
}

/// The result of a sent call: a transport error carries its message; else
/// the response is interpreted.
pub fn finish_request(outcome: Result<ResponseParts, String>) -> (r: Result<
    serde_json::Value,
    BridgeError,
>)
    ensures
        match outcome {
            Err(m) => r == Err::<serde_json::Value, BridgeError>(BridgeError::Transport(m)),
            Ok(p) => if is_success_status(p.status) {
                r == Ok::<serde_json::Value, BridgeError>(
                    success_value(p.content_length, bytes_of(p.body)),
                )
            } else {
                r == Err::<serde_json::Value, BridgeError>(BridgeError::Api(p.status))
            },
        },
{
    match outcome {
        Err(m) => Err(BridgeError::Transport(m)),
        Ok(p) => interpret_response(p),
    }
}

/// A successful response announced as empty gives exactly `{}`.
pub proof fn empty_success_is_empty_object(body: Option<Seq<u8>>)
    ensures
        success_value(Some(0u64), body) == empty_object(),
{
}

/// A successful body that is not JSON gives `{}` rather than an error.
pub proof fn non_json_success_is_empty_object(content_length: Option<u64>, body: Seq<u8>)
    requires
        json_from_bytes(body) is None,
    ensures
        success_value(content_length, Some(body)) == empty_object(),
{
}

/// A successful JSON body is passed through unchanged.
pub proof fn json_success_passes_through(content_length: Option<u64>, body: Seq<u8>)
    requires
        content_length != Some(0u64),
        json_from_bytes(body) is Some,
    ensures
        success_value(content_length, Some(body)) == json_from_bytes(body)->Some_0,
{
}

/// The message of an API error holds the status code in decimal, right after
/// its prefix.
pub proof fn api_error_names_status(code: u16)
    ensures
        api_error_text(code).subrange(11, 11 + decimal(code as nat).len() as int) == decimal(
            code as nat,
        ),
{
    reveal_strlit("API Error: ");
    assert("API Error: "@.len() == 11);
    assert(api_error_text(code).subrange(11, 11 + decimal(code as nat).len() as int) =~= decimal(
        code as nat,
    ));
}

/// A method other than GET, POST, PUT and DELETE is refused: no plan is made.
pub proof fn unknown_method_is_refused(s: Seq<char>)
    requires
        s != "GET"@,
        s != "POST"@,
        s != "PUT"@,
        s != "DELETE"@,
    ensures
        method_named(s) is None,
{
}

} // verus!
