//! A conversation: the list of messages of a group chat, oldest first.

use vstd::prelude::*;

verus! {

/// One message of a conversation.
#[derive(Debug, Clone)]
pub struct ConversationMessage {
    pub author: String,
    pub message: String,
}

impl ConversationMessage {
    pub fn new(message: String, author: String) -> (m: Self)
        ensures
            m == (ConversationMessage { author, message }),
    {
        Self { author, message }
    }
}

/// A conversation is a list of messages.
#[derive(Debug)]
pub struct Conversation {
    messages: Vec<ConversationMessage>,
}

impl View for Conversation {
    type V = Seq<ConversationMessage>;

    closed spec fn view(&self) -> Seq<ConversationMessage> {
        self.messages@
    }
}

/// The last `n` messages of `messages`, or all of them when there are fewer.
pub open spec fn last_messages(messages: Seq<ConversationMessage>, n: int) -> Seq<ConversationMessage> {
    let start = if n < messages.len() {
        messages.len() - n
    } else {
        0
    };
    messages.subrange(start, messages.len() as int)
}

impl Default for Conversation {
    fn default() -> (c: Self)
        ensures
            c@ == Seq::<ConversationMessage>::empty(),
    {
        let c = Conversation { messages: Vec::new() };
        assert(c@ =~= Seq::<ConversationMessage>::empty());
        c
    }
}

impl Conversation {
    /// Adds a message at the end of the conversation.
    pub fn add(&mut self, conversation_message: ConversationMessage)
        ensures
            final(self)@ == old(self)@.push(conversation_message),
    {
        self.messages.push(conversation_message)
    }

    /// The last `last_n` messages, oldest first (all of them when there are
    /// fewer).
    pub fn get(&self, last_n: usize) -> (r: Option<&[ConversationMessage]>)
        ensures
            r matches Some(s) && s@ == last_messages(self@, last_n as int),
    {
        let num_messages = self.messages.len();
        let start = num_messages.saturating_sub(last_n);
        Some(vstd::slice::slice_subrange(self.messages.as_slice(), start, num_messages))
    }
}

/// The last message of a conversation is the one added last.
pub proof fn lemma_added_message_is_last(messages: Seq<ConversationMessage>, m: ConversationMessage)
    ensures
        last_messages(messages.push(m), 1) == seq![m],
{
    assert(last_messages(messages.push(m), 1) =~= seq![m]);
}

} // verus!
