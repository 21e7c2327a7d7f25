//! The handler.

use vstd::prelude::*;
use crate::answer::{hello, hello_reply, Answer};
use crate::greeting::{greeting, greeting_bytes};
use crate::outside::{answer, create_response, head_request, with_body};

verus! {

/// `res` with the greeting as its body, whatever body it had.
pub fn with_greeting(res: hyper::Response) -> (out: hyper::Response)
    ensures
        answer(out) == (Answer { body: Some(greeting()), ..answer(res) }),
{
    with_body(res, greeting_bytes())
}

/// What `say_hello` owes to the request in `state`, whatever its method, its path, its
/// headers and its body: `out` holds `state` as it came, and an answer with the status
/// `200`, the type `text/plain` and the greeting as its body.
pub open spec fn said_hello(
    state: gotham::state::State,
    out: (gotham::state::State, hyper::Response),
) -> bool {
    &&& out.0 == state
    &&& answer(out.1).status == 200
    &&& answer(out.1).content_type == Some("text/plain"@)
    &&& answer(out.1).body == Some(greeting())
}

/// Answers the request in `state` with the greeting, and hands `state` back as it came.
///
/// Nothing of the request is looked at. `state` is one that gotham made for a request, so
/// it holds the request's id and its method, which gotham reads when it makes an answer.
pub fn say_hello(state: gotham::state::State) -> (out: (gotham::state::State, hyper::Response))
    requires
        head_request(state) is Some,
    ensures
        said_hello(state, out),
{
    let res = create_response(&state, hello_reply());
    // gotham leaves the body out of what it makes for a HEAD request
    let res = with_greeting(res);
    (state, res)
}

/// Two requests get the same answer, `hello()`, whatever each of them asks and whichever
/// is answered first: what `say_hello` gives to one does not depend on what it gave to
/// another, and each request goes on as it came.
pub proof fn answers_agree(
    one: gotham::state::State,
    other: gotham::state::State,
    first: (gotham::state::State, hyper::Response),
    second: (gotham::state::State, hyper::Response),
)
    requires
        said_hello(one, first),
        said_hello(other, second),
    ensures
        answer(first.1) == hello(),
        answer(second.1) == answer(first.1),
        first.0 == one,
        second.0 == other,
{
}

} // verus!
