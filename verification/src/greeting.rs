//! The greeting: the one text that this library ever sends.

use vstd::prelude::*;
use vstd::string::*;

verus! {

/// The body of every answer: the UTF-8 bytes of `Hello World!`.
pub open spec fn greeting() -> Seq<u8> {
    "Hello World!".spec_bytes()
}

/// The greeting byte by byte: twelve ASCII letters and marks, with no line end after them.
pub open spec fn greeting_letters() -> Seq<u8> {
    seq![72u8, 101u8, 108u8, 108u8, 111u8, 32u8, 87u8, 111u8, 114u8, 108u8, 100u8, 33u8]
}

/// The greeting is exactly the twelve bytes of `greeting_letters`.
pub proof fn greeting_is_twelve_letters()
    ensures
        greeting() == greeting_letters(),
        greeting().len() == 12,
{
    reveal_strlit("Hello World!");
    is_ascii_spec_bytes("Hello World!");
    assert(greeting() =~= greeting_letters());
}

/// The greeting as bytes to send.
pub fn greeting_bytes() -> (bytes: Vec<u8>)
    ensures
        bytes@ == greeting(),
{
    "Hello World!".as_bytes_vec()
}

} // verus!
