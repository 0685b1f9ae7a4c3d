//! Chat session data: messages, the loaded session, and turn-scoped memory.

use vstd::prelude::*;
use vstd::string::*;

verus! {

/// One entry of a conversation.  Messages are immutable once appended;
/// `ToolCall` and `ToolResult` carry the tool name beside its input or output.
#[derive(Debug)]
pub enum Message {
    System { content: String },
    User { content: String },
    Assistant { content: String },
    ToolCall { name: String, input: String },
    ToolResult { name: String, output: String },
}

impl Clone for Message {
    fn clone(&self) -> (r: Self)
        ensures
            r == *self,
    {
        match self {
            Message::System { content } => Message::System { content: content.clone() },
            Message::User { content } => Message::User { content: content.clone() },
            Message::Assistant { content } => Message::Assistant { content: content.clone() },
            Message::ToolCall { name, input } => Message::ToolCall {
                name: name.clone(),
                input: input.clone(),
            },
            Message::ToolResult { name, output } => Message::ToolResult {
                name: name.clone(),
                output: output.clone(),
            },
        }
    }
}

/// A chat session as the store loads it: identity, channel, persisted history,
/// and the two per-channel system prompts of its organization.
#[derive(Debug)]
pub struct Chat {
    pub id: i32,
    pub organization_id: i32,
    pub source: String,
    pub identifier: String,
    pub history: Vec<Message>,
    pub web_prompt: String,
    pub apps_prompt: String,
}

impl Chat {
    pub fn new(
        id: i32,
        organization_id: i32,
        source: &str,
        identifier: &str,
        history: Vec<Message>,
        web_prompt: &str,
        apps_prompt: &str,
    ) -> (r: Self)
        ensures
            r.id == id,
            r.organization_id == organization_id,
            r.source@ == source@,
            r.identifier@ == identifier@,
            r.history == history,
            r.web_prompt@ == web_prompt@,
            r.apps_prompt@ == apps_prompt@,
    {
        Self {
            id,
            organization_id,
            source: source.to_owned(),
            identifier: identifier.to_owned(),
            history,
            web_prompt: web_prompt.to_owned(),
            apps_prompt: apps_prompt.to_owned(),
        }
    }
}

/// Selects the system prompt that a session's channel calls for: the web
/// prompt for the `"widget"` source, the apps prompt for every other source.
pub fn select_prompt(session: &Chat) -> (r: String)
    ensures
        session.source@ == "widget"@ ==> r@ == session.web_prompt@,
        session.source@ != "widget"@ ==> r@ == session.apps_prompt@,
{
    let widget: String = "widget".to_owned();
    if session.source == widget {
        session.web_prompt.clone()
    } else {
        session.apps_prompt.clone()
    }
}

/// Turn-scoped ordered message buffer, owned by the one executor of the turn.
#[derive(Debug)]
pub struct ChatHistory(pub Vec<Message>);

impl View for ChatHistory {
    type V = Seq<Message>;

    open spec fn view(&self) -> Seq<Message> {
        self.0@
    }
}

impl ChatHistory {
    pub fn new() -> (r: Self)
        ensures
            r@ == Seq::<Message>::empty(),
    {
        Self(Vec::new())
    }

    pub fn from(messages: Vec<Message>) -> (r: Self)
        ensures
            r@ == messages@,
    {
        Self(messages)
    }

    /// A copy of the buffered messages, oldest first.
    pub fn messages(&self) -> (r: Vec<Message>)
        ensures
            r@ == self@,
    {
        let mut out: Vec<Message> = Vec::new();
        let mut i: usize = 0;
        while i < self.0.len()
            invariant
                i <= self.0.len(),
                out@ == self@.take(i as int),
            decreases self.0.len() - i,
        {
            out.push(self.0[i].clone());
            proof {
                assert(self@.take(i + 1 as int) =~= self@.take(i as int).push(self@[i as int]));
            }
            i = i + 1;
        }
        proof {
            assert(self@.take(self.0.len() as int) =~= self@);
        }
        out
    }

    pub fn add_message(&mut self, message: Message)
        ensures
            final(self)@ == old(self)@.push(message),
    {
        self.0.push(message);
    }

    pub fn clear(&mut self)
        ensures
            final(self)@ == Seq::<Message>::empty(),
    {
        self.0.clear();
    }
}

/// Whether a kind tag names one of the stored message shapes.
pub open spec fn known_message_kind(kind: Seq<char>) -> bool {
    ||| kind == "system"@
    ||| kind == "user"@
    ||| kind == "human"@
    ||| kind == "assistant"@
    ||| kind == "ai"@
    ||| kind == "tool_call"@
    ||| kind == "tool_result"@
}

/// Builds the message a stored record describes: `kind` tags the variant,
/// `content` is its text (the input of a tool call, the output of a tool
/// result), and `name` is the tool name where one belongs.  An unknown kind
/// yields nothing, so foreign records drop out instead of being mistaken.
pub fn message_from_parts(kind: &str, content: &str, name: &str) -> (r: Option<Message>)
    ensures
        kind@ == "system"@ ==> (r matches Some(m) && m matches Message::System { content: c }
            && c@ == content@),
        (kind@ == "user"@ || kind@ == "human"@) ==> (r matches Some(m) && m matches Message::User {
            content: c,
        } && c@ == content@),
        (kind@ == "assistant"@ || kind@ == "ai"@) ==> (r matches Some(m)
            && m matches Message::Assistant { content: c } && c@ == content@),
        kind@ == "tool_call"@ ==> (r matches Some(m) && m matches Message::ToolCall {
            name: n,
            input: i,
        } && n@ == name@ && i@ == content@),
        kind@ == "tool_result"@ ==> (r matches Some(m) && m matches Message::ToolResult {
            name: n,
            output: o,
        } && n@ == name@ && o@ == content@),
        !known_message_kind(kind@) ==> r is None,
{
    proof {
        broadcast use vstd::string::group_string_axioms;

        reveal_strlit("system");
        reveal_strlit("user");
        reveal_strlit("human");
        reveal_strlit("assistant");
        reveal_strlit("ai");
        reveal_strlit("tool_call");
        reveal_strlit("tool_result");
        assert("system"@.len() == 6);
        assert("user"@.len() == 4);
        assert("human"@.len() == 5);
        assert("assistant"@.len() == 9);
        assert("ai"@.len() == 2);
        assert("tool_call"@.len() == 9);
        assert("tool_result"@.len() == 11);
        assert("assistant"@[0] == 'a');
        assert("tool_call"@[0] == 't');
    }
    let k = kind.to_owned();
    if k == "system".to_owned() {
        Some(Message::System { content: content.to_owned() })
    } else if k == "user".to_owned() || k == "human".to_owned() {
        Some(Message::User { content: content.to_owned() })
    } else if k == "assistant".to_owned() || k == "ai".to_owned() {
        Some(Message::Assistant { content: content.to_owned() })
    } else if k == "tool_call".to_owned() {
        Some(Message::ToolCall { name: name.to_owned(), input: content.to_owned() })
    } else if k == "tool_result".to_owned() {
        Some(Message::ToolResult { name: name.to_owned(), output: content.to_owned() })
    } else {
        None
    }
}

/// Body of the chat endpoint's request: the user's message and the external
/// key of the session it belongs to.
#[derive(Debug)]
pub struct ChatRequestBody {
    pub content: String,
    pub chat_identifier: String,
}

impl ChatRequestBody {
    pub fn new(content: String, chat_identifier: String) -> (r: Self)
        ensures
            r.content == content,
            r.chat_identifier == chat_identifier,
    {
        Self { content, chat_identifier }
    }
}

} // verus!
