//! The operations of the break component: the endpoint each one addresses and
//! the parameter keys it takes, and the requests built from that table.
use vstd::prelude::*;
use vstd::string::StringExecFns;

use crate::dispatch::{ApiCall, CallView, opt_view, params_view};

verus! {

/// The operations of the break component.
#[derive(Clone, Copy, Debug, PartialEq, Eq, Structural)]
pub enum Operation {
    IsBreakAll,
    IsBreakRequest,
    IsBreakResponse,
    HttpMessage,
    Break,
    SetHttpMessage,
    Continue,
    Step,
    Drop,
    AddHttpBreakpoint,
    RemoveHttpBreakpoint,
}

/// The component that every operation here belongs to.
pub open spec fn break_component() -> Seq<char> {
    "break"@
}

/// The keys of a breakpoint definition, in argument order.
pub open spec fn breakpoint_keys() -> Seq<Seq<char>> {
    seq!["string"@, "location"@, "match"@, "inverse"@, "ignorecase"@]
}

impl Operation {
    /// Whether the operation only reads the proxy's state.
    pub open spec fn is_view(self) -> bool {
        match self {
            Operation::IsBreakAll | Operation::IsBreakRequest | Operation::IsBreakResponse
            | Operation::HttpMessage => true,
            _ => false,
        }
    }

    /// The operation's category: `view` or `action`.
    pub open spec fn category_spec(self) -> Seq<char> {
        if self.is_view() {
            "view"@
        } else {
            "action"@
        }
    }

    /// The name under which the remote side knows the operation.
    pub open spec fn name_spec(self) -> Seq<char> {
        match self {
            Operation::IsBreakAll => "isBreakAll"@,
            Operation::IsBreakRequest => "isBreakRequest"@,
            Operation::IsBreakResponse => "isBreakResponse"@,
            Operation::HttpMessage => "httpMessage"@,
            Operation::Break => "break"@,
            Operation::SetHttpMessage => "setHttpMessage"@,
            Operation::Continue => "continue"@,
            Operation::Step => "step"@,
            Operation::Drop => "drop"@,
            Operation::AddHttpBreakpoint => "addHttpBreakpoint"@,
            Operation::RemoveHttpBreakpoint => "removeHttpBreakpoint"@,
        }
    }

    /// The parameter keys of the operation, in argument order.
    pub open spec fn keys_spec(self) -> Seq<Seq<char>> {
        match self {
            Operation::Break => seq!["type"@, "state"@, "scope"@],
            Operation::SetHttpMessage => seq!["httpHeader"@, "httpBody"@],
            Operation::AddHttpBreakpoint | Operation::RemoveHttpBreakpoint => breakpoint_keys(),
            _ => Seq::empty(),
        }
    }

    /// The operation's category: `view` or `action`.
    pub fn category(&self) -> (r: String)
        ensures
            r@ == self.category_spec(),
    {
        match self {
            Operation::IsBreakAll | Operation::IsBreakRequest | Operation::IsBreakResponse
            | Operation::HttpMessage => String::from_str("view"),
            _ => String::from_str("action"),
        }
    }

    /// The name under which the remote side knows the operation.
    pub fn remote_name(&self) -> (r: String)
        ensures
            r@ == self.name_spec(),
    {
        let n = match self {
            Operation::IsBreakAll => "isBreakAll",
            Operation::IsBreakRequest => "isBreakRequest",
            Operation::IsBreakResponse => "isBreakResponse",
            Operation::HttpMessage => "httpMessage",
            Operation::Break => "break",
            Operation::SetHttpMessage => "setHttpMessage",
            Operation::Continue => "continue",
            Operation::Step => "step",
            Operation::Drop => "drop",
            Operation::AddHttpBreakpoint => "addHttpBreakpoint",
            Operation::RemoveHttpBreakpoint => "removeHttpBreakpoint",
        };
        String::from_str(n)
    }

    /// The parameter keys of the operation, in argument order.
    pub fn keys(&self) -> (r: Vec<String>)
        ensures
            r@.map_values(|k: String| k@) == self.keys_spec(),
    {
        let r = match self {
            Operation::Break => vec![
                String::from_str("type"),
                String::from_str("state"),
                String::from_str("scope"),
            ],
            Operation::SetHttpMessage => vec![
                String::from_str("httpHeader"),
                String::from_str("httpBody"),
            ],
            Operation::AddHttpBreakpoint | Operation::RemoveHttpBreakpoint => vec![
                String::from_str("string"),
                String::from_str("location"),
                String::from_str("match"),
                String::from_str("inverse"),
                String::from_str("ignorecase"),
            ],
            _ => Vec::new(),
        };
        assert(r@.map_values(|k: String| k@) =~= self.keys_spec());
        r
    }
}

/// The request for `op` with the arguments `args`, each under the key of
/// the same position.
pub open spec fn call_of(op: Operation, args: Seq<Seq<char>>) -> CallView {
    CallView {
        component: break_component(),
        category: op.category_spec(),
        name: op.name_spec(),
        params: Seq::new(op.keys_spec().len(), |i: int| (op.keys_spec()[i], args[i])),
    }
}

/// A list of strings as text.
pub open spec fn string_views(v: Vec<String>) -> Seq<Seq<char>> {
    v@.map_values(|a: String| a@)
}

/// Builds the request for `op`, each argument under the key of the same
/// position.
pub fn build_call(op: Operation, args: Vec<String>) -> (r: ApiCall)
    requires
        args@.len() == op.keys_spec().len(),
    ensures
        r@ == call_of(op, string_views(args)),
{
    let keys = op.keys();
    let mut params: Vec<(String, String)> = Vec::new();
    let mut i: usize = 0;
    while i < keys.len()
        invariant
            i <= keys@.len(),
            keys@.len() == args@.len(),
            keys@.map_values(|k: String| k@) == op.keys_spec(),
            params@.len() == i,
            forall|j: int|
                0 <= j < i ==> #[trigger] params@[j].0@ == op.keys_spec()[j] && params@[j].1@
                    == args@[j]@,
        decreases keys@.len() - i,
    {
        params.push((keys[i].clone(), args[i].clone()));
        i = i + 1;
    }
    let r = ApiCall {
        component: String::from_str("break"),
        category: op.category(),
        name: op.remote_name(),
        params,
    };
    assert(r@.params =~= call_of(op, string_views(args)).params);
    r
}

/// Every operation, in table order.
pub open spec fn all_operations() -> Seq<Operation> {
    seq![
        Operation::IsBreakAll,
        Operation::IsBreakRequest,
        Operation::IsBreakResponse,
        Operation::HttpMessage,
        Operation::Break,
        Operation::SetHttpMessage,
        Operation::Continue,
        Operation::Step,
        Operation::Drop,
        Operation::AddHttpBreakpoint,
        Operation::RemoveHttpBreakpoint,
    ]
}

proof fn lemma_all_listed(op: Operation)
    ensures
        all_operations().contains(op),
{
    let all = all_operations();
    let i: int = match op {
        Operation::IsBreakAll => 0,
        Operation::IsBreakRequest => 1,
        Operation::IsBreakResponse => 2,
        Operation::HttpMessage => 3,
        Operation::Break => 4,
        Operation::SetHttpMessage => 5,
        Operation::Continue => 6,
        Operation::Step => 7,
        Operation::Drop => 8,
        Operation::AddHttpBreakpoint => 9,
        Operation::RemoveHttpBreakpoint => 10,
    };
    assert(all[i] == op);
}

/// No two operations share a remote name.
pub proof fn lemma_name_determines(a: Operation, b: Operation)
    requires
        a.name_spec() == b.name_spec(),
    ensures
        a == b,
{
    reveal_strlit("isBreakAll");
    reveal_strlit("isBreakRequest");
    reveal_strlit("isBreakResponse");
    reveal_strlit("httpMessage");
    reveal_strlit("break");
    reveal_strlit("setHttpMessage");
    reveal_strlit("continue");
    reveal_strlit("step");
    reveal_strlit("drop");
    reveal_strlit("addHttpBreakpoint");
    reveal_strlit("removeHttpBreakpoint");
    assert("isBreakAll"@.len() == 10);
    assert("isBreakRequest"@.len() == 14 && "isBreakRequest"@[0] == 'i');
    assert("isBreakResponse"@.len() == 15);
    assert("httpMessage"@.len() == 11);
    assert("break"@.len() == 5);
    assert("setHttpMessage"@.len() == 14 && "setHttpMessage"@[0] == 's');
    assert("continue"@.len() == 8);
    assert("step"@.len() == 4 && "step"@[0] == 's');
    assert("drop"@.len() == 4 && "drop"@[0] == 'd');
    assert("addHttpBreakpoint"@.len() == 17);
    assert("removeHttpBreakpoint"@.len() == 20);
}

/// The operation that a category and a remote name address, if any.
pub open spec fn operation_named(category: Seq<char>, name: Seq<char>) -> Option<Operation> {
    if exists|op: Operation| op.category_spec() == category && op.name_spec() == name {
        Some(choose|op: Operation| op.category_spec() == category && op.name_spec() == name)
    } else {
        None
    }
}

fn all_operations_vec() -> (r: Vec<Operation>)
    ensures
        r@ == all_operations(),
{
    let r = vec![
        Operation::IsBreakAll,
        Operation::IsBreakRequest,
        Operation::IsBreakResponse,
        Operation::HttpMessage,
        Operation::Break,
        Operation::SetHttpMessage,
        Operation::Continue,
        Operation::Step,
        Operation::Drop,
        Operation::AddHttpBreakpoint,
        Operation::RemoveHttpBreakpoint,
    ];
    assert(r@ =~= all_operations());
    r
}

/// Finds the operation that a category and a remote name address.
pub fn find_operation(category: &String, name: &String) -> (r: Option<Operation>)
    ensures
        r == operation_named(category@, name@),
{
    let all = all_operations_vec();
    let mut i: usize = 0;
    while i < all.len()
        invariant
            all@ == all_operations(),
            i <= all@.len(),
            forall|j: int|
                0 <= j < i ==> !(#[trigger] all@[j].category_spec() == category@
                    && all@[j].name_spec() == name@),
        decreases all@.len() - i,
    {
        let op = all[i];
        if op.category() == *category && op.remote_name() == *name {
            proof {
                let other = choose|o: Operation|
                    o.category_spec() == category@ && o.name_spec() == name@;
                lemma_name_determines(op, other);
            }
            return Some(op);
        }
        i = i + 1;
    }
    proof {
        assert forall|op: Operation|
            !(op.category_spec() == category@ && op.name_spec() == name@) by {
            lemma_all_listed(op);
        }
    }
    None
}

/// The value under `key` in `params` from position `start` on: that of the
/// first pair with this key.
pub open spec fn lookup_from(params: Seq<(Seq<char>, Seq<char>)>, key: Seq<char>, start: int) -> Option<
    Seq<char>,
>
    decreases params.len() - start,
{
    if start < 0 || start >= params.len() {
        None
    } else if params[start].0 == key {
        Some(params[start].1)
    } else {
        lookup_from(params, key, start + 1)
    }
}

/// The value under `key` in `params`: that of the first pair with this key.
pub open spec fn lookup(params: Seq<(Seq<char>, Seq<char>)>, key: Seq<char>) -> Option<Seq<char>> {
    lookup_from(params, key, 0)
}

/// A read-back operation with its arguments as text.
pub open spec fn decoded_view(o: Option<(Operation, Vec<String>)>) -> Option<(Operation, Seq<Seq<char>>)> {
    match o {
        Some(d) => Some((d.0, string_views(d.1))),
        None => None,
    }
}

/// Finds the value under `key` in `params`.
pub fn param_value(params: &Vec<(String, String)>, key: &String) -> (r: Option<String>)
    ensures
        opt_view(r) == lookup(
            params_view(params@),
            key@,
        ),
{
    let ghost pv = params_view(params@);
    let mut i: usize = 0;
    while i < params.len()
        invariant
            i <= params@.len(),
            pv == params_view(params@),
            lookup(pv, key@) == lookup_from(pv, key@, i as int),
        decreases params@.len() - i,
    {
        if params[i].0 == *key {
            return Some(params[i].1.clone());
        }
        i = i + 1;
    }
    None
}

/// The operation and the arguments that a request carries: `None` where it
/// addresses no operation of the table, or where its parameters are not one
/// value for each of the operation's keys.
pub open spec fn decode_spec(c: CallView) -> Option<(Operation, Seq<Seq<char>>)> {
    if c.component == break_component() && operation_named(c.category, c.name) is Some {
        let op = operation_named(c.category, c.name)->Some_0;
        let keys = op.keys_spec();
        if c.params.len() == keys.len() && forall|i: int|
            0 <= i < keys.len() ==> #[trigger] lookup(c.params, keys[i]) is Some {
            Some((op, Seq::new(keys.len(), |i: int| lookup(c.params, keys[i])->Some_0)))
        } else {
            None
        }
    } else {
        None
    }
}

/// Reads back the operation and the arguments that a request carries.
pub fn decode_call(call: &ApiCall) -> (r: Option<(Operation, Vec<String>)>)
    ensures
        decoded_view(r) == decode_spec(call@),
{
    if call.component != String::from_str("break") {
        return None;
    }
    let op = match find_operation(&call.category, &call.name) {
        Some(op) => op,
        None => return None,
    };
    let keys = op.keys();
    if call.params.len() != keys.len() {
        return None;
    }
    let ghost c = call@;
    let ghost ks = op.keys_spec();
    let mut args: Vec<String> = Vec::new();
    let mut i: usize = 0;
    while i < keys.len()
        invariant
            c == call@,
            c.component == break_component(),
            operation_named(c.category, c.name) == Some(op),
            c.params.len() == ks.len(),
            ks == op.keys_spec(),
            keys@.map_values(|k: String| k@) == ks,
            i <= keys@.len(),
            args@.len() == i,
            forall|j: int|
                0 <= j < i ==> #[trigger] lookup(c.params, ks[j]) == Some(args@[j]@),
        decreases keys@.len() - i,
    {
        match param_value(&call.params, &keys[i]) {
            Some(v) => args.push(v),
            None => {
                assert(lookup(c.params, ks[i as int]) is None);
                return None;
            },
        }
        i = i + 1;
    }
    assert(string_views(args) =~= Seq::new(ks.len(), |j: int| lookup(c.params, ks[j])->Some_0));
    Some((op, args))
}

/// The keys of an operation are pairwise distinct.
pub proof fn lemma_keys_distinct(op: Operation)
    ensures
        forall|i: int, j: int|
            0 <= i < j < op.keys_spec().len() ==> op.keys_spec()[i] != op.keys_spec()[j],
{
    reveal_strlit("type");
    reveal_strlit("state");
    reveal_strlit("scope");
    reveal_strlit("httpHeader");
    reveal_strlit("httpBody");
    reveal_strlit("string");
    reveal_strlit("location");
    reveal_strlit("match");
    reveal_strlit("inverse");
    reveal_strlit("ignorecase");
    assert("type"@.len() == 4);
    assert("state"@.len() == 5 && "state"@[1] == 't');
    assert("scope"@.len() == 5 && "scope"@[1] == 'c');
    assert("httpHeader"@.len() == 10);
    assert("httpBody"@.len() == 8);
    assert("string"@.len() == 6);
    assert("location"@.len() == 8);
    assert("match"@.len() == 5);
    assert("inverse"@.len() == 7);
    assert("ignorecase"@.len() == 10);
}

proof fn lemma_lookup_position(
    params: Seq<(Seq<char>, Seq<char>)>,
    key: Seq<char>,
    start: int,
    i: int,
)
    requires
        0 <= start <= i < params.len(),
        params[i].0 == key,
        forall|j: int| start <= j < i ==> params[j].0 != key,
    ensures
        lookup_from(params, key, start) == Some(params[i].1),
    decreases i - start,
{
    if start < i {
        lemma_lookup_position(params, key, start + 1, i);
    }
}

/// A request built for an operation carries exactly the operation's keys,
/// in order and each once, and under each key the argument of its position;
/// its component, category and name are those of the operation.
pub proof fn lemma_params_exact(op: Operation, args: Seq<Seq<char>>)
    requires
        args.len() == op.keys_spec().len(),
    ensures
        call_of(op, args).component == break_component(),
        call_of(op, args).category == op.category_spec(),
        call_of(op, args).name == op.name_spec(),
        call_of(op, args).params.map_values(|p: (Seq<char>, Seq<char>)| p.0) == op.keys_spec(),
        forall|i: int|
            0 <= i < args.len() ==> #[trigger] lookup(call_of(op, args).params, op.keys_spec()[i])
                == Some(args[i]),
{
    let params = call_of(op, args).params;
    let keys = op.keys_spec();
    lemma_keys_distinct(op);
    assert(params.map_values(|p: (Seq<char>, Seq<char>)| p.0) =~= keys);
    assert forall|i: int| 0 <= i < args.len() implies #[trigger] lookup(params, keys[i]) == Some(
        args[i],
    ) by {
        lemma_lookup_position(params, keys[i], 0, i);
    }
}

/// An operation without arguments sends no parameters.
pub proof fn lemma_no_arguments(op: Operation)
    requires
        op.keys_spec().len() == 0,
    ensures
        call_of(op, Seq::empty()).params.len() == 0,
{
}

/// Reading back a request built for an operation gives the operation and the
/// arguments it was built from.
pub proof fn lemma_round_trip(op: Operation, args: Seq<Seq<char>>)
    requires
        args.len() == op.keys_spec().len(),
    ensures
        decode_spec(call_of(op, args)) == Some((op, args)),
{
    let c = call_of(op, args);
    let keys = op.keys_spec();
    let other = choose|o: Operation| o.category_spec() == c.category && o.name_spec() == c.name;
    lemma_name_determines(op, other);
    assert(operation_named(c.category, c.name) == Some(op));
    lemma_params_exact(op, args);
    assert(forall|i: int| 0 <= i < keys.len() ==> #[trigger] lookup(c.params, keys[i]) is Some);
    assert(Seq::new(keys.len(), |i: int| lookup(c.params, keys[i])->Some_0) =~= args);
}

} // verus!
