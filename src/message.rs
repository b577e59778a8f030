use vstd::prelude::*;

verus! {

/// Who wrote a message of the transcript.
#[derive(Clone, Copy, Debug, PartialEq, Eq, Structural)]
pub enum MessageRole {
    User,
    Assistant,
    System,
    ToolCall,
    ToolResult,
}

/// Where the bytes of a document come from.
#[derive(Clone, Debug)]
pub enum FileSource {
    /// The document is carried in the message itself.
    Inline { data: String },
    /// The document was uploaded before and is referred to by its id.
    File { file_id: String },
}

/// One typed unit of the content of a message.
#[derive(Clone, Debug)]
pub enum ContentBlock {
    Text { text: String },
    Document { source: FileSource },
}

/// One entry of the conversation transcript.
#[derive(Clone, Debug)]
pub struct Message {
    pub role: MessageRole,
    pub content: Vec<ContentBlock>,
}

/// The mathematical value of a `Message`.
pub struct MessageView {
    pub role: MessageRole,
    pub content: Seq<ContentBlock>,
}

impl View for Message {
    type V = MessageView;

    open spec fn view(&self) -> MessageView {
        MessageView { role: self.role, content: self.content@ }
    }
}

/// What the remote agent is asked with: everything but the transcript.
#[derive(Clone, Debug)]
pub struct AgentConfig {
    pub system_prompt: String,
    pub max_tokens: u32,
    pub model_id: String,
}

/// A command from the user interface to the conversation actor.
#[derive(Clone, Debug)]
pub enum Request {
    Chat { text: String, attachment_paths: Vec<String> },
    ClearHistory,
    SetModel { model_id: String },
}

/// An outcome from the conversation actor to the user interface.
#[derive(Clone, Debug)]
pub enum Response {
    TextResponse { text: String, is_final: bool },
    Error { message: String },
}

/// The mathematical value of a `Response`.
pub enum ResponseView {
    TextResponse { text: Seq<char>, is_final: bool },
    Error { message: Seq<char> },
}

impl View for Response {
    type V = ResponseView;

    open spec fn view(&self) -> ResponseView {
        match self {
            Response::TextResponse { text, is_final } => ResponseView::TextResponse {
                text: text@,
                is_final: *is_final,
            },
            Response::Error { message } => ResponseView::Error { message: message@ },
        }
    }
}

impl Response {
    /// Whether this response ends the turn it belongs to.
    pub open spec fn spec_is_done(&self) -> bool {
        match self {
            Response::TextResponse { is_final, .. } => *is_final,
            Response::Error { .. } => true,
        }
    }

    #[verifier::when_used_as_spec(spec_is_done)]
    pub fn is_done(&self) -> (r: bool)
        ensures
            r == self.spec_is_done(),
    {
        match self {
            Response::TextResponse { is_final, .. } => *is_final,
            Response::Error { .. } => true,
        }
    }
}

/// The role under which an entry is shown in the display transcript.
#[derive(Clone, Copy, Debug, PartialEq, Eq, Structural)]
pub enum DisplayRole {
    User,
    Assistant,
    System,
    ToolCall,
    ToolResult,
    Error,
}

/// How an entry of the display transcript is drawn.
#[derive(Clone, Copy, Debug, PartialEq, Eq, Structural)]
pub enum EntryStyle {
    /// Not drawn.
    Hidden,
    /// Drawn as plain rendered text.
    Plain,
    /// Drawn inside a framed box.
    Framed,
    /// Drawn as a diagnostic.
    Alert,
}

/// One entry of the user interface's own copy of the conversation.
#[derive(Clone, Debug)]
pub struct DisplayEntry {
    pub role: DisplayRole,
    pub content: String,
}

impl View for DisplayEntry {
    type V = (DisplayRole, Seq<char>);

    open spec fn view(&self) -> (DisplayRole, Seq<char>) {
        (self.role, self.content@)
    }
}

pub open spec fn spec_entry_style(role: DisplayRole) -> EntryStyle {
    match role {
        DisplayRole::User => EntryStyle::Framed,
        DisplayRole::Assistant | DisplayRole::System => EntryStyle::Plain,
        DisplayRole::ToolCall | DisplayRole::ToolResult => EntryStyle::Hidden,
        DisplayRole::Error => EntryStyle::Alert,
    }
}

/// How an entry with the given role is drawn: user turns framed, assistant
/// and system text plain, tool traffic not at all, errors as diagnostics.
pub fn entry_style(role: DisplayRole) -> (r: EntryStyle)
    ensures
        r == spec_entry_style(role),
{
    match role {
        DisplayRole::User => EntryStyle::Framed,
        DisplayRole::Assistant | DisplayRole::System => EntryStyle::Plain,
        DisplayRole::ToolCall | DisplayRole::ToolResult => EntryStyle::Hidden,
        DisplayRole::Error => EntryStyle::Alert,
    }
}

} // verus!
