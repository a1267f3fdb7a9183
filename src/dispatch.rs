//! The call mechanism shared by every operation: the request value, the
//! endpoint path it addresses, and the classification of the reply.
use vstd::prelude::*;
use vstd::string::StringExecFns;
use vstd::utf8::encode_utf8;

verus! {

/// A decoded JSON document, carried through as it is.
#[verifier::external_type_specification]
#[verifier::external_body]
pub struct ExValue(serde_json::Value);

/// Why a text is not a JSON document.
#[verifier::external_type_specification]
#[verifier::external_body]
pub struct ExJsonError(serde_json::Error);

/// A request to one remote operation: the (component, category, name) triad
/// that addresses it and its parameters as (key, value) pairs.
pub struct ApiCall {
    pub component: String,
    pub category: String,
    pub name: String,
    pub params: Vec<(String, String)>,
}

/// The mathematical value of an [`ApiCall`].
pub struct CallView {
    pub component: Seq<char>,
    pub category: Seq<char>,
    pub name: Seq<char>,
    pub params: Seq<(Seq<char>, Seq<char>)>,
}

/// A (key, value) pair as text.
pub open spec fn pair_view(p: (String, String)) -> (Seq<char>, Seq<char>) {
    (p.0@, p.1@)
}

/// The (key, value) pairs of a parameter list, as text.
pub open spec fn params_view(params: Seq<(String, String)>) -> Seq<(Seq<char>, Seq<char>)> {
    params.map_values(|p: (String, String)| pair_view(p))
}

impl View for ApiCall {
    type V = CallView;

    open spec fn view(&self) -> CallView {
        CallView {
            component: self.component@,
            category: self.category@,
            name: self.name@,
            params: params_view(self.params@),
        }
    }
}

/// The path that addresses an endpoint: `/<category>/<component>/<name>/`.
pub open spec fn path_of(c: CallView) -> Seq<char> {
    "/"@ + c.category + "/"@ + c.component + "/"@ + c.name + "/"@
}

/// Builds the path of the endpoint that `call` addresses.
pub fn endpoint_path(call: &ApiCall) -> (r: String)
    ensures
        r@ == path_of(call@),
{
    let mut r = String::from_str("/");
    r.append(call.category.as_str());
    r.append("/");
    r.append(call.component.as_str());
    r.append("/");
    r.append(call.name.as_str());
    r.append("/");
    r
}

/// The bytes that a query keeps as they are: letters, digits and `-._~`.
pub open spec fn is_unreserved(b: u8) -> bool {
    (65 <= b <= 90) || (97 <= b <= 122) || (48 <= b <= 57) || b == 45 || b == 46 || b == 95
        || b == 126
}

/// The upper-case hexadecimal digit of a value below 16.
pub open spec fn hex_digit(n: u8) -> u8 {
    if n < 10 {
        (48 + n) as u8
    } else {
        (55 + n) as u8
    }
}

/// A byte as a query holds it: unreserved bytes stay, any other becomes `%`
/// and two hexadecimal digits.
pub open spec fn encode_byte(b: u8) -> Seq<u8> {
    if is_unreserved(b) {
        seq![b]
    } else {
        seq![37u8, hex_digit(b / 16), hex_digit(b % 16)]
    }
}

/// Percent-encoding of a byte string, byte by byte.
pub open spec fn percent_encode(s: Seq<u8>) -> Seq<u8>
    decreases s.len(),
{
    if s.len() == 0 {
        Seq::empty()
    } else {
        percent_encode(s.drop_last()) + encode_byte(s.last())
    }
}

/// One parameter as a query holds it: `key=value`, both percent-encoded
/// from their UTF-8 bytes.
pub open spec fn encode_pair(p: (Seq<char>, Seq<char>)) -> Seq<u8> {
    percent_encode(encode_utf8(p.0)) + seq![61u8] + percent_encode(encode_utf8(p.1))
}

/// The query of a parameter list: its encoded pairs in order, joined by `&`.
pub open spec fn query_of(params: Seq<(Seq<char>, Seq<char>)>) -> Seq<u8>
    decreases params.len(),
{
    if params.len() == 0 {
        Seq::empty()
    } else if params.len() == 1 {
        encode_pair(params[0])
    } else {
        query_of(params.drop_last()) + seq![38u8] + encode_pair(params.last())
    }
}

fn hex_digit_of(n: u8) -> (r: u8)
    requires
        n < 16,
    ensures
        r == hex_digit(n),
{
    if n < 10 {
        48 + n
    } else {
        55 + n
    }
}

fn push_encoded(out: &mut Vec<u8>, text: &str)
    ensures
        final(out)@ == old(out)@ + percent_encode(encode_utf8(text@)),
{
    let bytes = text.as_bytes();
    let ghost start = out@;
    let mut i: usize = 0;
    while i < bytes.len()
        invariant
            bytes@ == encode_utf8(text@),
            i <= bytes@.len(),
            out@ == start + percent_encode(bytes@.subrange(0, i as int)),
        decreases bytes@.len() - i,
    {
        let b = bytes[i];
        if (65 <= b && b <= 90) || (97 <= b && b <= 122) || (48 <= b && b <= 57) || b == 45 || b
            == 46 || b == 95 || b == 126 {
            out.push(b);
        } else {
            out.push(37);
            out.push(hex_digit_of(b / 16));
            out.push(hex_digit_of(b % 16));
        }
        proof {
            let next = bytes@.subrange(0, i + 1);
            assert(next.drop_last() =~= bytes@.subrange(0, i as int));
            assert(out@ =~= start + percent_encode(next));
        }
        i = i + 1;
    }
    assert(bytes@.subrange(0, bytes@.len() as int) =~= bytes@);
}

/// Encodes a parameter list as a query: each pair as `key=value`, in order,
/// joined by `&`, with keys and values percent-encoded from their UTF-8
/// bytes.
pub fn encode_query(params: &Vec<(String, String)>) -> (r: Vec<u8>)
    ensures
        r@ == query_of(params_view(params@)),
{
    let ghost pv = params_view(params@);
    let mut out: Vec<u8> = Vec::new();
    let mut i: usize = 0;
    while i < params.len()
        invariant
            pv == params_view(params@),
            i <= params@.len(),
            out@ == query_of(pv.subrange(0, i as int)),
        decreases params@.len() - i,
    {
        let ghost before = out@;
        if i > 0 {
            out.push(38);
        }
        push_encoded(&mut out, params[i].0.as_str());
        out.push(61);
        push_encoded(&mut out, params[i].1.as_str());
        proof {
            let next = pv.subrange(0, i + 1);
            assert(next.drop_last() =~= pv.subrange(0, i as int));
            assert(next.last() == pv[i as int]);
            if i == 0 {
                assert(out@ =~= encode_pair(pv[0]));
            } else {
                assert(out@ =~= before + seq![38u8] + encode_pair(pv[i as int]));
            }
        }
        i = i + 1;
    }
    assert(pv.subrange(0, pv.len() as int) =~= pv);
    out
}

/// A classified failure of a remote call.
pub enum ApiError {
    /// The service could not be reached; the transport's own description.
    Transport(String),
    /// The service answered with a failure status or an error payload.
    Api { status: u16, code: String, message: String },
    /// The reply body is not a JSON document; the decoder's description.
    Decode(String),
}

/// The mathematical value of an [`ApiError`].
pub enum ErrorView {
    Transport(Seq<char>),
    Api { status: u16, code: Seq<char>, message: Seq<char> },
    Decode(Seq<char>),
}

impl View for ApiError {
    type V = ErrorView;

    open spec fn view(&self) -> ErrorView {
        match self {
            ApiError::Transport(t) => ErrorView::Transport(t@),
            ApiError::Api { status, code, message } => ErrorView::Api {
                status: *status,
                code: code@,
                message: message@,
            },
            ApiError::Decode(d) => ErrorView::Decode(d@),
        }
    }
}

/// What the transport brought back from the service.
pub struct RawResponse {
    pub status: u16,
    pub body: String,
}

/// The statuses that report success: 200 to 299.
pub open spec fn is_success(status: u16) -> bool {
    200 <= status < 300
}

/// The text of an optional field of an error payload; a missing one is empty.
pub open spec fn text_or_empty(t: Option<String>) -> Seq<char> {
    match t {
        Some(s) => s@,
        None => Seq::empty(),
    }
}

/// A call's outcome with the error replaced by its value.
pub open spec fn outcome_view(r: Result<serde_json::Value, ApiError>) -> Result<
    serde_json::Value,
    ErrorView,
> {
    match r {
        Ok(v) => Ok(v),
        Err(e) => Err(e@),
    }
}

/// The outcome of a call given its reply status, the decoded body (or the
/// decoder's description of why it is not JSON), and the `code` and `message`
/// text members of the decoded body, where it has them.
pub open spec fn reply_outcome(
    status: u16,
    decoded: Result<serde_json::Value, String>,
    code: Option<String>,
    message: Option<String>,
) -> Result<serde_json::Value, ErrorView> {
    if !is_success(status) {
        Err(ErrorView::Api { status, code: text_or_empty(code), message: text_or_empty(message) })
    } else {
        match decoded {
            Err(d) => Err(ErrorView::Decode(d@)),
            Ok(v) => match code {
                Some(c) => Err(
                    ErrorView::Api { status, code: c@, message: text_or_empty(message) },
                ),
                None => Ok(v),
            },
        }
    }
}

fn text_or_new(t: Option<String>) -> (r: String)
    ensures
        r@ == text_or_empty(t),
{
    match t {
        Some(s) => s,
        None => String::new(),
    }
}

/// Classifies a reply: a failure status is an API error; on success, a body
/// that is not JSON is a decode error, and one that carries a `code` is an
/// API error; otherwise the decoded body is the result.
pub fn classify_reply(
    status: u16,
    decoded: Result<serde_json::Value, String>,
    code: Option<String>,
    message: Option<String>,
) -> (r: Result<serde_json::Value, ApiError>)
    ensures
        outcome_view(r) == reply_outcome(status, decoded, code, message),
{
    if status < 200 || status >= 300 {
        return Err(ApiError::Api { status, code: text_or_new(code), message: text_or_new(message) });
    }
    match decoded {
        Err(d) => Err(ApiError::Decode(d)),
        Ok(v) => match code {
            Some(c) => Err(ApiError::Api { status, code: c, message: text_or_new(message) }),
            None => Ok(v),
        },
    }
}

/// Whether `serde_json` accepts the text as a JSON document.
pub uninterp spec fn is_json_text(s: Seq<char>) -> bool;

/// The document that `serde_json` reads from a JSON text.
pub uninterp spec fn json_of(s: Seq<char>) -> serde_json::Value;

/// Relies on `serde_json::from_str::<Value>`: it succeeds exactly on the
/// texts that are JSON documents, and the document it reads depends on the
/// text alone.
#[verifier::external_body]
fn parse_json(text: &str) -> (r: Result<serde_json::Value, serde_json::Error>)
    ensures
        r is Ok <==> is_json_text(text@),
        r is Ok ==> r->Ok_0 == json_of(text@),
{
    serde_json::from_str(text)
}

/// Relies on `serde_json::Error`'s `Display`: a description of the error.
#[verifier::external_body]
fn json_error_text(e: &serde_json::Error) -> String {
    e.to_string()
}

/// The member of a JSON document under a key, as `serde_json` finds it.
pub uninterp spec fn value_member(v: serde_json::Value, key: Seq<char>) -> Option<
    serde_json::Value,
>;

/// Relies on `serde_json::Value::get`: the member of an object under `key`;
/// the result depends on the document and the key alone.
#[verifier::external_body]
fn member<'a>(v: &'a serde_json::Value, key: &str) -> (r: Option<&'a serde_json::Value>)
    ensures
        r is Some <==> value_member(*v, key@) is Some,
        r is Some ==> *r->Some_0 == value_member(*v, key@)->Some_0,
{
    v.get(key)
}

/// The text of a JSON document that is a string, as `serde_json` gives it.
pub uninterp spec fn value_text(v: serde_json::Value) -> Option<Seq<char>>;

/// Relies on `serde_json::Value::as_str`: the text of a JSON string; the
/// result depends on the document alone.
#[verifier::external_body]
fn as_text(v: &serde_json::Value) -> (r: Option<String>)
    ensures
        opt_view(r) == value_text(*v),
{
    v.as_str().map(|t| t.to_string())
}

/// An optional string as text.
pub open spec fn opt_view(o: Option<String>) -> Option<Seq<char>> {
    match o {
        Some(s) => Some(s@),
        None => None,
    }
}

/// The text of the JSON string under `key` in a document, if there is one.
pub open spec fn member_text(v: serde_json::Value, key: Seq<char>) -> Option<Seq<char>> {
    match value_member(v, key) {
        Some(m) => value_text(m),
        None => None,
    }
}

/// The text of the JSON string under `key` in a reply body; none where the
/// body is not a JSON document.
pub open spec fn body_member(body: Seq<char>, key: Seq<char>) -> Option<Seq<char>> {
    if is_json_text(body) {
        member_text(json_of(body), key)
    } else {
        None
    }
}

/// An optional text; a missing one is empty.
pub open spec fn or_empty(t: Option<Seq<char>>) -> Seq<char> {
    match t {
        Some(s) => s,
        None => Seq::empty(),
    }
}

/// The text of the JSON string under `key` in an object, if there is one.
fn text_member(v: &serde_json::Value, key: &str) -> (r: Option<String>)
    ensures
        opt_view(r) == member_text(*v, key@),
{
    match member(v, key) {
        Some(m) => as_text(m),
        None => None,
    }
}

/// Turns what the transport brought back into the call's outcome.
/// - A transport error is returned as it is.
/// - A failure status is an API error with the body's `code` and `message`
///   strings, each empty where the body lacks it.
/// - On success, a body that is not JSON is a decode error; one whose
///   document has a `code` string is an API error with that code and the
///   `message` string (empty where missing); any other gives its document.
pub fn interpret_response(sent: Result<RawResponse, ApiError>) -> (r: Result<
    serde_json::Value,
    ApiError,
>)
    ensures
        sent is Err ==> r == Err::<serde_json::Value, ApiError>(sent->Err_0),
        sent is Ok && !is_success(sent->Ok_0.status) ==> outcome_view(r) == Err::<
            serde_json::Value,
            ErrorView,
        >(
            ErrorView::Api {
                status: sent->Ok_0.status,
                code: or_empty(body_member(sent->Ok_0.body@, "code"@)),
                message: or_empty(body_member(sent->Ok_0.body@, "message"@)),
            },
        ),
        sent is Ok && is_success(sent->Ok_0.status) && !is_json_text(sent->Ok_0.body@) ==> (r is Err
            && r->Err_0 is Decode),
        sent is Ok && is_success(sent->Ok_0.status) && is_json_text(sent->Ok_0.body@) && body_member(
            sent->Ok_0.body@,
            "code"@,
        ) is Some ==> outcome_view(r) == Err::<serde_json::Value, ErrorView>(
            ErrorView::Api {
                status: sent->Ok_0.status,
                code: body_member(sent->Ok_0.body@, "code"@)->Some_0,
                message: or_empty(body_member(sent->Ok_0.body@, "message"@)),
            },
        ),
        sent is Ok && is_success(sent->Ok_0.status) && is_json_text(sent->Ok_0.body@) && body_member(
            sent->Ok_0.body@,
            "code"@,
        ) is None ==> r == Ok::<serde_json::Value, ApiError>(json_of(sent->Ok_0.body@)),
{
    let raw = match sent {
        Err(e) => return Err(e),
        Ok(raw) => raw,
    };
    let (decoded, code, message) = match parse_json(raw.body.as_str()) {
        Err(e) => (Err(json_error_text(&e)), None, None),
        Ok(v) => {
            let code = text_member(&v, "code");
            let message = text_member(&v, "message");
            (Ok(v), code, message)
        },
    };
    classify_reply(raw.status, decoded, code, message)
}

} // verus!
