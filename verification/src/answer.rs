//! Answers: what one holds, and the one that this library gives.

use vstd::prelude::*;
use crate::greeting::{greeting, greeting_bytes};
use crate::outside::{media_type, text_plain};

verus! {

/// What an answer holds, as far as this library speaks of it.
pub struct Answer {
    /// The number of the status code.
    pub status: u16,
    /// The media type in the `Content-Type` header, where there is such a header.
    pub content_type: Option<Seq<char>>,
    /// The bytes of the body, where a body was set.
    pub body: Option<Seq<u8>>,
}

/// The parts that an answer is made from.
pub struct Reply {
    /// The number of the status code.
    pub status: u16,
    /// The media type of the body.
    pub media: mime::Mime,
    /// The body.
    pub body: Vec<u8>,
}

impl View for Reply {
    type V = Answer;

    /// The answer that has these parts.
    open spec fn view(&self) -> Answer {
        Answer {
            status: self.status,
            content_type: Some(media_type(self.media)),
            body: Some(self.body@),
        }
    }
}

/// The one answer that this library gives: `200`, `text/plain`, and the greeting.
pub open spec fn hello() -> Answer {
    Answer { status: 200, content_type: Some("text/plain"@), body: Some(greeting()) }
}

/// The parts of `hello()`.
pub fn hello_reply() -> (reply: Reply)
    ensures
        reply@ == hello(),
{
    Reply { status: 200, media: text_plain(), body: greeting_bytes() }
}

} // verus!
