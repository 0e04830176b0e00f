use vstd::prelude::*;

verus! {

/// Who speaks in a message exchanged with the model.
#[derive(Clone, Copy, Debug, PartialEq, Eq, Structural)]
pub enum Role {
    System,
    User,
    Assistant,
}

impl Role {
    /// The name of the role as it is written on the wire.
    pub open spec fn wire_name(self) -> Seq<char> {
        match self {
            Role::System => "system"@,
            Role::User => "user"@,
            Role::Assistant => "assistant"@,
        }
    }

    /// Returns the wire name of the role.
    pub fn as_str(&self) -> (name: &'static str)
        ensures
            name@ == self.wire_name(),
    {
        match self {
            Role::System => "system",
            Role::User => "user",
            Role::Assistant => "assistant",
        }
    }

    /// The role that a wire name stands for.
    pub open spec fn of_wire_name(name: Seq<char>) -> Option<Role> {
        if name == "system"@ {
            Some(Role::System)
        } else if name == "user"@ {
            Some(Role::User)
        } else if name == "assistant"@ {
            Some(Role::Assistant)
        } else {
            None
        }
    }

    /// The three wire names differ, so a role is found again from its name.
    pub proof fn lemma_wire_name_round_trip(self)
        ensures
            Role::of_wire_name(self.wire_name()) == Some(self),
    {
        reveal_strlit("system");
        reveal_strlit("user");
        reveal_strlit("assistant");
        assert("system"@.len() == 6);
        assert("user"@.len() == 4);
        assert("assistant"@.len() == 9);
    }

    /// Reads a role from its wire name.
    pub fn from_name(name: &str) -> (role: Option<Role>)
        ensures
            role == Role::of_wire_name(name@),
    {
        let given = String::from_str(name);
        if given == String::from_str("system") {
            Some(Role::System)
        } else if given == String::from_str("user") {
            Some(Role::User)
        } else if given == String::from_str("assistant") {
            Some(Role::Assistant)
        } else {
            None
        }
    }

    /// Returns the wire name of the role as an owned string.
    pub fn to_string(&self) -> (name: String)
        ensures
            name@ == self.wire_name(),
    {
        String::from_str(self.as_str())
    }
}

/// One unit of exchange with the model. Never changed once built.
#[derive(Debug, PartialEq, Eq)]
pub struct Message {
    pub role: Role,
    pub content: String,
}

/// The mathematical value of a [`Message`].
pub struct MessageView {
    pub role: Role,
    pub content: Seq<char>,
}

impl View for Message {
    type V = MessageView;

    open spec fn view(&self) -> MessageView {
        MessageView { role: self.role, content: self.content@ }
    }
}

impl DeepView for Message {
    type V = MessageView;

    open spec fn deep_view(&self) -> MessageView {
        self@
    }
}

impl Clone for Message {
    fn clone(&self) -> (copy: Self)
        ensures
            copy@ == self@,
    {
        Message { role: self.role, content: self.content.clone() }
    }
}

/// The views of a run of messages, in order.
pub open spec fn message_views(messages: Seq<Message>) -> Seq<MessageView> {
    messages.map_values(|m: Message| m@)
}

/// A chat-completion request: built fresh for each call and not kept.
///
/// The sampling temperature is held in thousandths, so that `100` stands
/// for one tenth.
#[derive(Debug, Clone, PartialEq, Eq)]
pub struct ChatCompletion {
    pub model: String,
    pub messages: Vec<Message>,
    pub temperature_milli: u16,
}

/// The mathematical value of a [`ChatCompletion`].
pub struct ChatCompletionView {
    pub model: Seq<char>,
    pub messages: Seq<MessageView>,
    pub temperature_milli: nat,
}

impl View for ChatCompletion {
    type V = ChatCompletionView;

    open spec fn view(&self) -> ChatCompletionView {
        ChatCompletionView {
            model: self.model@,
            messages: message_views(self.messages@),
            temperature_milli: self.temperature_milli as nat,
        }
    }
}

impl ChatCompletion {
    /// The temperature lies between zero and one.
    pub open spec fn well_formed(&self) -> bool {
        self.temperature_milli <= 1000
    }
}

/// One alternative answer of the model.
#[derive(Debug, Clone, PartialEq, Eq)]
pub struct APIChoice {
    pub message: Message,
}

/// What the model sent back: its alternative answers, best first.
#[derive(Debug, Clone, PartialEq, Eq)]
pub struct APIResponse {
    pub choices: Vec<APIChoice>,
}

impl View for APIResponse {
    type V = Seq<MessageView>;

    open spec fn view(&self) -> Seq<MessageView> {
        self.choices@.map_values(|c: APIChoice| c.message@)
    }
}

} // verus!
