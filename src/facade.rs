//! One function per operation of the break component. Each returns the
//! request that addresses the operation, its arguments under the operation's
//! parameter keys; the caller's transport sends it.
use vstd::prelude::*;

use crate::dispatch::ApiCall;
use crate::operation::{Operation, build_call, call_of, string_views};

verus! {

/// Whether the proxy breaks on both requests and responses.
pub fn is_break_all() -> (r: ApiCall)
    ensures
        r@ == call_of(Operation::IsBreakAll, Seq::empty()),
{
    let args: Vec<String> = Vec::new();
    assert(string_views(args) =~= Seq::empty());
    build_call(Operation::IsBreakAll, args)
}

/// Whether the proxy breaks on requests.
pub fn is_break_request() -> (r: ApiCall)
    ensures
        r@ == call_of(Operation::IsBreakRequest, Seq::empty()),
{
    let args: Vec<String> = Vec::new();
    assert(string_views(args) =~= Seq::empty());
    build_call(Operation::IsBreakRequest, args)
}

/// Whether the proxy breaks on responses.
pub fn is_break_response() -> (r: ApiCall)
    ensures
        r@ == call_of(Operation::IsBreakResponse, Seq::empty()),
{
    let args: Vec<String> = Vec::new();
    assert(string_views(args) =~= Seq::empty());
    build_call(Operation::IsBreakResponse, args)
}

/// The HTTP message currently intercepted, if any.
pub fn http_message() -> (r: ApiCall)
    ensures
        r@ == call_of(Operation::HttpMessage, Seq::empty()),
{
    let args: Vec<String> = Vec::new();
    assert(string_views(args) =~= Seq::empty());
    build_call(Operation::HttpMessage, args)
}

/// Controls the global break: `typ` is one of `http-all`, `http-request` or
/// `http-response`, `state` is `true` or `false`; `scope` is passed on as it is.
pub fn brk(typ: String, state: String, scope: String) -> (r: ApiCall)
    ensures
        r@ == call_of(Operation::Break, seq![typ@, state@, scope@]),
{
    let args = vec![typ, state, scope];
    assert(string_views(args) =~= seq![typ@, state@, scope@]);
    build_call(Operation::Break, args)
}

/// Overwrites the currently intercepted message with the given header and body.
pub fn set_http_message(httpheader: String, httpbody: String) -> (r: ApiCall)
    ensures
        r@ == call_of(Operation::SetHttpMessage, seq![httpheader@, httpbody@]),
{
    let args = vec![httpheader, httpbody];
    assert(string_views(args) =~= seq![httpheader@, httpbody@]);
    build_call(Operation::SetHttpMessage, args)
}

/// Submits the intercepted message and unsets the global request and response
/// breaks.
pub fn cont() -> (r: ApiCall)
    ensures
        r@ == call_of(Operation::Continue, Seq::empty()),
{
    let args: Vec<String> = Vec::new();
    assert(string_views(args) =~= Seq::empty());
    build_call(Operation::Continue, args)
}

/// Submits the intercepted message; the next request or response is
/// intercepted.
pub fn step() -> (r: ApiCall)
    ensures
        r@ == call_of(Operation::Step, Seq::empty()),
{
    let args: Vec<String> = Vec::new();
    assert(string_views(args) =~= Seq::empty());
    build_call(Operation::Step, args)
}

/// Drops the intercepted message.
pub fn drop() -> (r: ApiCall)
    ensures
        r@ == call_of(Operation::Drop, Seq::empty()),
{
    let args: Vec<String> = Vec::new();
    assert(string_views(args) =~= Seq::empty());
    build_call(Operation::Drop, args)
}

/// Adds a custom HTTP breakpoint: the string to match, where to look for it
/// (`url`, `request_header`, `request_body`, `response_header` or
/// `response_body`), how to match (`contains` or `regex`), whether to invert
/// the match and whether to ignore case (`true` or `false`).
pub fn add_http_breakpoint(
    string: String,
    location: String,
    mtch: String,
    inverse: String,
    ignorecase: String,
) -> (r: ApiCall)
    ensures
        r@ == call_of(
            Operation::AddHttpBreakpoint,
            seq![string@, location@, mtch@, inverse@, ignorecase@],
        ),
{
    let args = vec![string, location, mtch, inverse, ignorecase];
    assert(string_views(args) =~= seq![string@, location@, mtch@, inverse@, ignorecase@]);
    build_call(Operation::AddHttpBreakpoint, args)
}

/// Removes the custom HTTP breakpoint with this definition.
pub fn remove_http_breakpoint(
    string: String,
    location: String,
    mtch: String,
    inverse: String,
    ignorecase: String,
) -> (r: ApiCall)
    ensures
        r@ == call_of(
            Operation::RemoveHttpBreakpoint,
            seq![string@, location@, mtch@, inverse@, ignorecase@],
        ),
{
    let args = vec![string, location, mtch, inverse, ignorecase];
    assert(string_views(args) =~= seq![string@, location@, mtch@, inverse@, ignorecase@]);
    build_call(Operation::RemoveHttpBreakpoint, args)
}

} // verus!
