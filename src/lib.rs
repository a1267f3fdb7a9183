//! Client-side binding for the breakpoint controls of an intercepting HTTP
//! proxy's remote control API.
//!
//! Every remote operation is described by a request value, [`ApiCall`]: the
//! component, category and name that address the endpoint, and the string
//! parameters that go with it. The operations of the break component are
//! listed in [`Operation`], and [`facade`] has one function per operation.
//! Sending the request is left to the caller's transport; the reply it brings
//! back is classified by [`interpret_response`].
pub mod dispatch;
pub mod facade;
pub mod operation;

pub use dispatch::{
    ApiCall, ApiError, CallView, ErrorView, RawResponse, classify_reply, encode_query,
    endpoint_path, interpret_response,
};
pub use facade::{
    add_http_breakpoint, brk, cont, drop, http_message, is_break_all, is_break_request,
    is_break_response, remove_http_breakpoint, set_http_message, step,
};
pub use operation::{Operation, build_call, decode_call, find_operation, param_value};
