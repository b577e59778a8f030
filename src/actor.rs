use vstd::prelude::*;
use vstd::string::*;

use crate::message::{
    AgentConfig, ContentBlock, FileSource, Message, MessageRole, MessageView, Request, Response, ResponseView,
};

verus! {

/// Where the conversation actor stands.
#[derive(Clone, Copy, Debug, PartialEq, Eq, Structural)]
pub enum Phase {
    /// Waiting for the next request.
    Ready,
    /// A chat turn is open and one of its attachments is being uploaded.
    Uploading,
    /// A chat turn is open and its content is with the remote agent.
    Calling,
    /// No request will be processed any more.
    Terminated,
}

/// What the actor needs done next by whoever drives it.
#[derive(Clone, Copy, Debug, PartialEq, Eq, Structural)]
pub enum Action {
    /// Take the next request off the request queue.
    Receive,
    /// Upload the file at `upload_path` and report the outcome.
    Upload,
    /// Run one chat turn with `transcript`, `outgoing` and `config`.
    CallAgent,
    /// Stop driving the actor.
    Stop,
}

/// What happened outside the actor.
#[derive(Debug)]
pub enum Event {
    /// A request came off the request queue.
    Request(Request),
    /// The upload asked for finished: a file id, or why it failed.
    Uploaded(Result<String, String>),
    /// The chat turn asked for finished: the assistant's text, or why it failed.
    Replied(Result<String, String>),
    /// The request queue has no sender left.
    Closed,
}

/// The mathematical state of a `ConversationActor`.
pub struct ActorView {
    pub config: AgentConfig,
    pub transcript: Seq<MessageView>,
    pub phase: Phase,
    /// The attachments of the open turn.
    pub paths: Seq<String>,
    /// How many of them have been dealt with.
    pub next: nat,
    /// The content of the open turn, so far.
    pub outgoing: Seq<ContentBlock>,
}

pub open spec fn actor_wf(s: ActorView) -> bool {
    &&& s.next <= s.paths.len()
    &&& s.phase is Uploading ==> s.next < s.paths.len()
    &&& s.phase is Calling ==> s.next == s.paths.len()
}

pub open spec fn response_view(r: Option<Response>) -> Option<ResponseView> {
    match r {
        Some(x) => Some(x@),
        None => None,
    }
}

pub open spec fn init_failure_message() -> Seq<char> {
    "Failed to initialize agent"@
}

pub open spec fn upload_failure_message(path: Seq<char>, err: Seq<char>) -> Seq<char> {
    "Failed to upload file "@ + path + ": "@ + err
}

pub open spec fn spec_next_action(s: ActorView) -> Action {
    match s.phase {
        Phase::Ready => Action::Receive,
        Phase::Uploading => Action::Upload,
        Phase::Calling => Action::CallAgent,
        Phase::Terminated => Action::Stop,
    }
}

/// `s` with no turn open.
pub open spec fn idle(s: ActorView) -> ActorView {
    ActorView { phase: Phase::Ready, paths: Seq::empty(), next: 0, outgoing: Seq::empty(), ..s }
}

/// `s` with a chat turn opened on `text` and `paths`.
pub open spec fn begin_turn(s: ActorView, text: String, paths: Seq<String>) -> ActorView {
    ActorView {
        phase: if paths.len() > 0 { Phase::Uploading } else { Phase::Calling },
        paths,
        next: 0,
        outgoing: seq![ContentBlock::Text { text }],
        ..s
    }
}

/// `s` with its current attachment dealt with, `block` added to the content if any.
pub open spec fn advance(s: ActorView, block: Option<ContentBlock>) -> ActorView {
    ActorView {
        phase: if s.next + 1 < s.paths.len() { Phase::Uploading } else { Phase::Calling },
        next: s.next + 1,
        outgoing: match block {
            Some(b) => s.outgoing.push(b),
            None => s.outgoing,
        },
        ..s
    }
}

/// The state that follows `s` on `e`, and the response it emits.
/// Events that do not fit the phase change nothing.
pub open spec fn step(s: ActorView, e: Event) -> (ActorView, Option<ResponseView>) {
    match s.phase {
        Phase::Ready => match e {
            Event::Request(Request::Chat { text, attachment_paths }) => (
                begin_turn(s, text, attachment_paths@),
                None,
            ),
            Event::Request(Request::ClearHistory) => (
                ActorView { transcript: Seq::empty(), ..s },
                None,
            ),
            Event::Request(Request::SetModel { model_id }) => (
                ActorView {
                    config: AgentConfig {
                        system_prompt: s.config.system_prompt,
                        max_tokens: s.config.max_tokens,
                        model_id,
                    },
                    transcript: Seq::empty(),
                    ..s
                },
                None,
            ),
            Event::Closed => (ActorView { phase: Phase::Terminated, ..s }, None),
            _ => (s, None),
        },
        Phase::Uploading => match e {
            Event::Uploaded(Ok(file_id)) => (
                advance(s, Some(ContentBlock::Document { source: FileSource::File { file_id } })),
                None,
            ),
            Event::Uploaded(Err(err)) => (
                advance(s, None),
                Some(
                    ResponseView::Error {
                        message: upload_failure_message(s.paths[s.next as int]@, err@),
                    },
                ),
            ),
            _ => (s, None),
        },
        Phase::Calling => match e {
            Event::Replied(Ok(text)) => (
                ActorView {
                    transcript: s.transcript + turn_messages(s.outgoing, text),
                    ..idle(s)
                },
                Some(ResponseView::TextResponse { text: text@, is_final: true }),
            ),
            Event::Replied(Err(err)) => (idle(s), Some(ResponseView::Error { message: err@ })),
            _ => (s, None),
        },
        Phase::Terminated => (s, None),
    }
}

/// What a successful turn adds to the transcript: the user's content, then the reply.
pub open spec fn turn_messages(content: Seq<ContentBlock>, reply: String) -> Seq<MessageView> {
    seq![
        MessageView { role: MessageRole::User, content },
        MessageView {
            role: MessageRole::Assistant,
            content: seq![ContentBlock::Text { text: reply }],
        },
    ]
}

/// The single owner of the transcript and the model configuration. It handles
/// one request at a time; the uploads and the chat call of a turn are done by
/// whoever drives it, who reports each outcome back as an `Event`.
pub struct ConversationActor {
    config: AgentConfig,
    transcript: Vec<Message>,
    phase: Phase,
    paths: Vec<String>,
    next: usize,
    outgoing: Vec<ContentBlock>,
}

impl View for ConversationActor {
    type V = ActorView;

    closed spec fn view(&self) -> ActorView {
        ActorView {
            config: self.config,
            transcript: self.transcript@.map_values(|m: Message| m@),
            phase: self.phase,
            paths: self.paths@,
            next: self.next as nat,
            outgoing: self.outgoing@,
        }
    }
}

impl ConversationActor {
    /// The turn bookkeeping is consistent with the phase.
    pub open spec fn wf(&self) -> bool {
        actor_wf(self@)
    }

    /// An actor for `config`. Where the agent could not be built (`built` is
    /// false) it is born terminated and hands back the one error it reports.
    pub fn start(config: AgentConfig, built: bool) -> (r: (ConversationActor, Option<Response>))
        ensures
            r.0.wf(),
            r.0@.config == config,
            r.0@.transcript.len() == 0,
            r.0@.paths.len() == 0,
            r.0@.next == 0,
            r.0@.outgoing.len() == 0,
            built ==> r.0@.phase is Ready && r.1 is None,
            !built ==> r.0@.phase is Terminated && response_view(r.1) == Some(
                ResponseView::Error { message: init_failure_message() },
            ),
    {
        let actor = ConversationActor {
            config,
            transcript: Vec::new(),
            phase: if built { Phase::Ready } else { Phase::Terminated },
            paths: Vec::new(),
            next: 0,
            outgoing: Vec::new(),
        };
        proof {
            assert(actor@.transcript =~= Seq::empty());
        }
        if built {
            (actor, None)
        } else {
            (actor, Some(Response::Error { message: String::from_str("Failed to initialize agent") }))
        }
    }

    pub fn phase(&self) -> (r: Phase)
        ensures
            r == self@.phase,
    {
        self.phase
    }

    /// What the driver is to do next.
    pub fn next_action(&self) -> (r: Action)
        ensures
            r == spec_next_action(self@),
    {
        match self.phase {
            Phase::Ready => Action::Receive,
            Phase::Uploading => Action::Upload,
            Phase::Calling => Action::CallAgent,
            Phase::Terminated => Action::Stop,
        }
    }

    pub fn config(&self) -> (r: &AgentConfig)
        ensures
            *r == self@.config,
    {
        &self.config
    }

    /// The history that the next chat call is sent with.
    pub fn transcript(&self) -> (r: &Vec<Message>)
        ensures
            r@.map_values(|m: Message| m@) == self@.transcript,
    {
        &self.transcript
    }

    /// The content of the open turn.
    pub fn outgoing(&self) -> (r: &Vec<ContentBlock>)
        ensures
            r@ == self@.outgoing,
    {
        &self.outgoing
    }

    /// The file to upload now, while an upload is due.
    pub fn upload_path(&self) -> (r: Option<&String>)
        requires
            self.wf(),
        ensures
            self@.phase is Uploading ==> r == Some(&self@.paths[self@.next as int]),
            !(self@.phase is Uploading) ==> r is None,
    {
        match self.phase {
            Phase::Uploading => Some(&self.paths[self.next]),
            _ => None,
        }
    }

    fn advance(&mut self)
        requires
            old(self).next < old(self).paths@.len(),
        ensures
            final(self).next == old(self).next + 1,
            final(self).phase == (if final(self).next < final(self).paths@.len() {
                Phase::Uploading
            } else {
                Phase::Calling
            }),
            final(self).config == old(self).config,
            final(self).transcript == old(self).transcript,
            final(self).paths == old(self).paths,
            final(self).outgoing == old(self).outgoing,
    {
        let n = self.paths.len();
        self.next = self.next + 1;
        self.phase = if self.next < n {
            Phase::Uploading
        } else {
            Phase::Calling
        };
    }

    fn close_turn(&mut self)
        ensures
            final(self)@ == idle(old(self)@),
    {
        self.phase = Phase::Ready;
        self.paths = Vec::new();
        self.next = 0;
        self.outgoing = Vec::new();
        proof {
            assert(final(self)@.paths =~= Seq::empty());
            assert(final(self)@.outgoing =~= Seq::empty());
        }
    }

    /// Processes one event: the state moves as `step` says and the response
    /// that `step` names, if any, is handed back to be emitted.
    pub fn handle(&mut self, event: Event) -> (r: Option<Response>)
        requires
            old(self).wf(),
        ensures
            final(self).wf(),
            final(self)@ == step(old(self)@, event).0,
            response_view(r) == step(old(self)@, event).1,
    {
        let ghost s0 = self@;
        match self.phase {
            Phase::Ready => match event {
                Event::Request(Request::Chat { text, attachment_paths }) => {
                    let n = attachment_paths.len();
                    self.paths = attachment_paths;
                    self.next = 0;
                    let mut content = Vec::new();
                    content.push(ContentBlock::Text { text });
                    self.outgoing = content;
                    self.phase = if n > 0 { Phase::Uploading } else { Phase::Calling };
                    None
                },
                Event::Request(Request::ClearHistory) => {
                    self.transcript.clear();
                    proof {
                        assert(self@.transcript =~= Seq::empty());
                    }
                    None
                },
                Event::Request(Request::SetModel { model_id }) => {
                    self.config.model_id = model_id;
                    self.transcript.clear();
                    proof {
                        assert(self@.transcript =~= Seq::empty());
                    }
                    None
                },
                Event::Closed => {
                    self.phase = Phase::Terminated;
                    None
                },
                _ => None,
            },
            Phase::Uploading => match event {
                Event::Uploaded(Ok(file_id)) => {
                    self.outgoing.push(
                        ContentBlock::Document { source: FileSource::File { file_id } },
                    );
                    self.advance();
                    None
                },
                Event::Uploaded(Err(err)) => {
                    let message = String::from_str("Failed to upload file ").concat(
                        self.paths[self.next].as_str(),
                    ).concat(": ").concat(err.as_str());
                    self.advance();
                    Some(Response::Error { message })
                },
                _ => None,
            },
            Phase::Calling => match event {
                Event::Replied(Ok(text)) => {
                    let reply = text.clone();
                    let mut content = Vec::new();
                    std::mem::swap(&mut content, &mut self.outgoing);
                    let ghost t0 = self.transcript@;
                    self.transcript.push(Message { role: MessageRole::User, content });
                    let mut answer = Vec::new();
                    answer.push(ContentBlock::Text { text });
                    self.transcript.push(Message { role: MessageRole::Assistant, content: answer });
                    self.close_turn();
                    proof {
                        assert(self@.transcript =~= s0.transcript + turn_messages(
                            s0.outgoing,
                            reply,
                        ));
                    }
                    Some(Response::TextResponse { text: reply, is_final: true })
                },
                Event::Replied(Err(err)) => {
                    self.close_turn();
                    Some(Response::Error { message: err })
                },
                _ => None,
            },
            Phase::Terminated => None,
        }
    }
}

} // verus!
