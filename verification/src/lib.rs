//! A gotham handler that greets every request alike: whatever is asked, the answer is
//! `200`, of type `text/plain`, and says `Hello World!`.

pub mod answer;
pub mod greeting;
pub mod handler;
pub mod outside;

pub use handler::{say_hello, with_greeting};
