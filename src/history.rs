//! The history: every chat message received, in order of arrival.
use vstd::prelude::*;
use crate::wire::{ChatMessage, ChatMessageV};

verus! {

/// The views of a sequence of messages.
pub open spec fn messages_view(messages: Seq<ChatMessage>) -> Seq<ChatMessageV> {
    messages.map_values(|m: ChatMessage| m@)
}

/// The messages received so far, oldest first. Messages are only ever
/// appended.
pub struct History {
    messages: Vec<ChatMessage>,
}

impl View for History {
    type V = Seq<ChatMessageV>;

    closed spec fn view(&self) -> Seq<ChatMessageV> {
        messages_view(self.messages@)
    }
}

impl History {
    /// The history of no message.
    pub fn new() -> (r: History)
        ensures
            r@ == Seq::<ChatMessageV>::empty(),
    {
        let r = History { messages: Vec::new() };
        assert(r@ =~= Seq::<ChatMessageV>::empty());
        r
    }

    /// Appends a message after all others.
    pub fn append(&mut self, message: ChatMessage)
        ensures
            final(self)@ == old(self)@.push(message@),
    {
        self.messages.push(message);
        assert(self@ =~= old(self)@.push(message@));
    }

    /// All messages, oldest first.
    pub fn all(&self) -> (r: &Vec<ChatMessage>)
        ensures
            messages_view(r@) == self@,
    {
        &self.messages
    }
}

} // verus!
