//! The types and calls of gotham, hyper and mime that the handler uses.
//!
//! Nothing in this file is proved. The types are declared, the spec functions without a body
//! name what values of them hold, and each function with a contract states what the outside
//! item in its body does, as that item's source shows it.

use vstd::prelude::*;
use crate::answer::{Answer, Reply};

verus! {

/// gotham's `State`: what gotham keeps of one request while it is handled.
#[verifier::external_type_specification]
#[verifier::external_body]
pub struct ExState(gotham::state::State);

/// hyper's `Response`: status, headers and body of an answer.
#[verifier::external_type_specification]
#[verifier::external_body]
#[verifier::reject_recursive_types(B)]
pub struct ExResponse<B>(hyper::Response<B>);

/// hyper's `Body`: the bytes of a request or of an answer, as a stream.
#[verifier::external_type_specification]
#[verifier::external_body]
pub struct ExBody(hyper::Body);

/// mime's `Mime`: a media type.
#[verifier::external_type_specification]
#[verifier::external_body]
pub struct ExMime(mime::Mime);

/// What `res` holds: the number that `res.status().as_u16()` gives, the text of the media
/// type in its `ContentType` header, if it has that header, and the bytes that its body
/// was made from, if a body was set.
pub uninterp spec fn answer(res: hyper::Response) -> Answer;

/// The text of a media type, as `as_ref()` gives it.
pub uninterp spec fn media_type(media: mime::Mime) -> Seq<char>;

/// What `state` holds of its request: `None` unless both the request's id and its method
/// are in it, as they are in every state that gotham hands to a handler; then whether the
/// method is hyper's `Method::Head`.
pub uninterp spec fn head_request(state: gotham::state::State) -> Option<bool>;

/// The constant `mime::TEXT_PLAIN`, whose text is `text/plain`.
#[verifier::external_body]
pub(crate) fn text_plain() -> (media: mime::Mime)
    ensures
        media_type(media) == "text/plain"@,
{
    mime::TEXT_PLAIN
}

/// gotham's `create_response`, with the status made from its number by hyper's
/// `StatusCode::try_from`, which takes the numbers from 100 to 599 and keeps them.
///
/// The answer made has the status and the media type of `reply`. Its body is that of
/// `reply`, but for a HEAD request, for which gotham sets none. gotham reads the request's
/// id and its method from `state`, and panics where one is missing.
#[verifier::external_body]
pub(crate) fn create_response(state: &gotham::state::State, reply: Reply) -> (res: hyper::Response)
    requires
        head_request(*state) is Some,
        100 <= reply.status <= 599,
    ensures
        answer(res).status == reply.status,
        answer(res).content_type == Some(media_type(reply.media)),
        answer(res).body == (if head_request(*state) == Some(true) {
            None
        } else {
            Some(reply.body@)
        }),
{
    let status = hyper::StatusCode::try_from(reply.status).unwrap();
    gotham::http::response::create_response(state, status, Some((reply.body, reply.media)))
}

/// hyper's `Response::with_body`: the same answer with `body` as its body, in place of the
/// one it had, if it had one.
#[verifier::external_body]
pub(crate) fn with_body(res: hyper::Response, body: Vec<u8>) -> (out: hyper::Response)
    ensures
        answer(out).status == answer(res).status,
        answer(out).content_type == answer(res).content_type,
        answer(out).body == Some(body@),
{
    res.with_body(body)
}

} // verus!
