//! The transcript of a chat session.

use vstd::prelude::*;

verus! {

/// Who wrote a message.
#[derive(Clone, Copy, Debug, PartialEq, Eq, Structural)]
pub enum Role {
    User,
    Assistant,
    System,
}

impl Role {
    /// What the transcript writes before a message of this role.
    pub open spec fn spec_prefix(self) -> Seq<char> {
        match self {
            Role::User => "You: "@,
            Role::Assistant => "LLM: "@,
            Role::System => ""@,
        }
    }

    /// The name of this role in a request to the completion service.
    pub open spec fn spec_wire_name(self) -> Seq<char> {
        match self {
            Role::User => "user"@,
            Role::Assistant => "assistant"@,
            Role::System => "system"@,
        }
    }

    pub fn prefix(self) -> (text: &'static str)
        ensures
            text@ == self.spec_prefix(),
    {
        match self {
            Role::User => "You: ",
            Role::Assistant => "LLM: ",
            Role::System => "",
        }
    }

    pub fn wire_name(self) -> (name: &'static str)
        ensures
            name@ == self.spec_wire_name(),
    {
        match self {
            Role::User => "user",
            Role::Assistant => "assistant",
            Role::System => "system",
        }
    }
}

/// What a message is: its role and the characters of its text.
pub struct MessageView {
    pub role: Role,
    pub content: Seq<char>,
}

/// One entry of the transcript. It does not change once made.
#[derive(Debug)]
pub struct Message {
    role: Role,
    content: String,
}

impl View for Message {
    type V = MessageView;

    closed spec fn view(&self) -> MessageView {
        MessageView { role: self.role, content: self.content@ }
    }
}

impl Clone for Message {
    fn clone(&self) -> (copy: Message)
        ensures
            copy@ == self@,
    {
        Message { role: self.role, content: self.content.clone() }
    }
}

impl Message {
    pub fn new(role: Role, content: String) -> (message: Message)
        ensures
            message@ == (MessageView { role, content: content@ }),
    {
        Message { role, content }
    }

    pub fn role(&self) -> (role: Role)
        ensures
            role == self@.role,
    {
        self.role
    }

    pub fn content(&self) -> (content: &str)
        ensures
            content@ == self@.content,
    {
        self.content.as_str()
    }
}

/// What each message of `messages` is, in order.
pub open spec fn views(messages: Seq<Message>) -> Seq<MessageView> {
    Seq::new(messages.len(), |i: int| messages[i]@)
}

/// The last `count` entries of `entries` in their order, or all of them
/// where there are no more than `count`.
pub open spec fn trailing<A>(entries: Seq<A>, count: nat) -> Seq<A> {
    if entries.len() <= count {
        entries
    } else {
        entries.subrange(entries.len() - count, entries.len() as int)
    }
}

/// The transcript: messages in the order in which they were added. Messages
/// are only ever added at the end.
#[derive(Debug)]
pub struct ChatHistory {
    messages: Vec<Message>,
}

impl View for ChatHistory {
    type V = Seq<MessageView>;

    closed spec fn view(&self) -> Seq<MessageView> {
        views(self.messages@)
    }
}

impl Clone for ChatHistory {
    fn clone(&self) -> (copy: ChatHistory)
        ensures
            copy@ == self@,
    {
        let messages = self.recent(self.messages.len());
        ChatHistory { messages }
    }
}

impl ChatHistory {
    /// An empty transcript.
    pub fn new() -> (history: ChatHistory)
        ensures
            history@ == Seq::<MessageView>::empty(),
    {
        let history = ChatHistory { messages: Vec::new() };
        assert(history@ =~= Seq::<MessageView>::empty());
        history
    }

    pub fn len(&self) -> (count: usize)
        ensures
            count == self@.len(),
    {
        self.messages.len()
    }

    /// The message at `index`, counted from the oldest.
    pub fn get(&self, index: usize) -> (message: &Message)
        requires
            index < self@.len(),
        ensures
            message@ == self@[index as int],
    {
        &self.messages[index]
    }

    /// Adds `message` at the end.
    pub fn append(&mut self, message: Message)
        ensures
            final(self)@ == old(self)@.push(message@),
    {
        self.messages.push(message);
        assert(self@ =~= old(self)@.push(message@));
    }

    /// Copies of the last `count` messages, oldest first.
    pub fn recent(&self, count: usize) -> (window: Vec<Message>)
        ensures
            views(window@) == trailing(self@, count as nat),
    {
        let total: usize = self.messages.len();
        let start: usize = if total <= count {
            0
        } else {
            total - count
        };
        let mut window: Vec<Message> = Vec::new();
        let mut i: usize = start;
        while i < total
            invariant
                start <= i <= total,
                total == self.messages.len(),
                views(window@) == self@.subrange(start as int, i as int),
            decreases total - i,
        {
            let copy = self.messages[i].clone();
            let ghost before = views(window@);
            window.push(copy);
            assert(views(window@) =~= before.push(copy@));
            assert(before.push(self@[i as int]) =~= self@.subrange(start as int, i + 1));
            i += 1;
        }
        assert(self@.subrange(0, total as int) =~= self@);
        window
    }
}

} // verus!
