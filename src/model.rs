//! The rows of the two remote relations, and their mathematical views.
use vstd::prelude::*;

verus! {

/// A backend-assigned identity: an opaque 256-bit value, held as two halves.
#[derive(Clone, Copy, Debug, PartialEq, Eq, Structural)]
pub struct Identity {
    pub high: u128,
    pub low: u128,
}

/// A row of the `user` relation.
#[derive(Clone, Debug)]
pub struct User {
    pub identity: Identity,
    pub name: Option<String>,
}

/// A row of the `message` relation; `sent` is in microseconds since the Unix epoch.
#[derive(Clone, Debug)]
pub struct Message {
    pub sender: Identity,
    pub sent: i64,
    pub text: String,
}

/// What a `User` row says, with its strings as character sequences.
pub struct UserView {
    pub identity: Identity,
    pub name: Option<Seq<char>>,
}

/// What a `Message` row says, with its text as a character sequence.
pub struct MessageView {
    pub sender: Identity,
    pub sent: i64,
    pub text: Seq<char>,
}

pub open spec fn option_string_view(o: Option<String>) -> Option<Seq<char>> {
    match o {
        Some(s) => Some(s@),
        None => None,
    }
}

impl View for User {
    type V = UserView;

    open spec fn view(&self) -> UserView {
        UserView { identity: self.identity, name: option_string_view(self.name) }
    }
}

impl View for Message {
    type V = MessageView;

    open spec fn view(&self) -> MessageView {
        MessageView { sender: self.sender, sent: self.sent, text: self.text@ }
    }
}

impl Identity {
    pub fn new(high: u128, low: u128) -> (r: Identity)
        ensures
            r.high == high,
            r.low == low,
    {
        Identity { high, low }
    }
}

} // verus!
