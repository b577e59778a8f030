use vstd::prelude::*;
use vstd::string::*;

use crate::message::{DisplayEntry, DisplayRole, Request, Response, ResponseView};
use crate::text::{attachment_label, is_blank, is_blank_text, spec_attachment_label};

verus! {

/// The mathematical state of a `ChatAI`.
pub struct ChatState {
    pub entries: Seq<(DisplayRole, Seq<char>)>,
    pub busy: bool,
    pub attachments: Seq<String>,
    pub has_api_key: bool,
    /// Whether responses are still taken off the response queue.
    pub listening: bool,
}

/// The display entry a response becomes.
pub open spec fn entry_of(r: ResponseView) -> (DisplayRole, Seq<char>) {
    match r {
        ResponseView::TextResponse { text, .. } => (DisplayRole::Assistant, text),
        ResponseView::Error { message } => (DisplayRole::Error, message),
    }
}

/// The view after it takes the response `r`.
pub open spec fn dispatch(st: ChatState, r: ResponseView) -> ChatState {
    if !st.listening {
        st
    } else {
        ChatState {
            entries: st.entries.push(entry_of(r)),
            busy: match r {
                ResponseView::TextResponse { is_final, .. } => st.busy && !is_final,
                ResponseView::Error { .. } => false,
            },
            ..st
        }
    }
}

pub open spec fn send_failure_message(err: Seq<char>) -> Seq<char> {
    "Failed to send: "@ + err
}

pub open spec fn clear_failure_message(err: Seq<char>) -> Seq<char> {
    "Failed to clear chat: "@ + err
}

/// The user interface's side of the conversation: the display transcript, the
/// busy indicator and the files waiting to go out with the next message.
/// Only the response handlers and the submission of a message write to it.
pub struct ChatAI {
    entries: Vec<DisplayEntry>,
    busy: bool,
    attachments: Vec<String>,
    has_api_key: bool,
    listening: bool,
}

impl View for ChatAI {
    type V = ChatState;

    closed spec fn view(&self) -> ChatState {
        ChatState {
            entries: self.entries@.map_values(|e: DisplayEntry| e@),
            busy: self.busy,
            attachments: self.attachments@,
            has_api_key: self.has_api_key,
            listening: self.listening,
        }
    }
}

impl ChatAI {
    /// An empty, idle view; `has_api_key` says whether a credential was found.
    pub fn new(has_api_key: bool) -> (r: ChatAI)
        ensures
            r@.entries.len() == 0,
            !r@.busy,
            r@.attachments.len() == 0,
            r@.has_api_key == has_api_key,
            r@.listening,
    {
        let r = ChatAI {
            entries: Vec::new(),
            busy: false,
            attachments: Vec::new(),
            has_api_key,
            listening: true,
        };
        proof {
            assert(r@.entries =~= Seq::empty());
        }
        r
    }

    pub fn entries(&self) -> (r: &Vec<DisplayEntry>)
        ensures
            r@.map_values(|e: DisplayEntry| e@) == self@.entries,
    {
        &self.entries
    }

    pub fn is_busy(&self) -> (r: bool)
        ensures
            r == self@.busy,
    {
        self.busy
    }

    pub fn attachments(&self) -> (r: &Vec<String>)
        ensures
            r@ == self@.attachments,
    {
        &self.attachments
    }

    /// Without a credential the input is disabled and a warning is shown.
    pub fn has_api_key(&self) -> (r: bool)
        ensures
            r == self@.has_api_key,
    {
        self.has_api_key
    }

    pub fn is_listening(&self) -> (r: bool)
        ensures
            r == self@.listening,
    {
        self.listening
    }

    /// Appends one entry to the display transcript.
    pub fn add_message(&mut self, entry: DisplayEntry)
        ensures
            final(self)@ == (ChatState {
                entries: old(self)@.entries.push(entry@),
                ..old(self)@
            }),
    {
        let ghost e0 = self.entries@;
        self.entries.push(entry);
        proof {
            assert(self.entries@.map_values(|e: DisplayEntry| e@) =~= e0.map_values(
                |e: DisplayEntry| e@,
            ).push(entry@));
        }
    }

    pub fn set_loading(&mut self, loading: bool)
        ensures
            final(self)@ == (ChatState { busy: loading, ..old(self)@ }),
    {
        self.busy = loading;
    }

    /// Adds files to send with the next message, after those already pending.
    pub fn attach(&mut self, paths: Vec<String>)
        ensures
            final(self)@ == (ChatState {
                attachments: old(self)@.attachments + paths@,
                ..old(self)@
            }),
    {
        let mut paths = paths;
        self.attachments.append(&mut paths);
    }

    /// The caption of the attachment button.
    pub fn attachment_label(&self) -> (r: String)
        ensures
            r@ == spec_attachment_label(self@.attachments.len()),
    {
        attachment_label(self.attachments.len())
    }

    /// Turns the text of the input box into a chat request, given whether the
    /// text is blank. A blank text gives no request and changes nothing;
    /// otherwise the request carries the text and every pending attachment,
    /// and the pending list is emptied so the files are never sent twice.
    pub fn prepare_chat(&mut self, text: String, blank: bool) -> (r: Option<Request>)
        ensures
            blank ==> r is None && final(self)@ == old(self)@,
            !blank ==> final(self)@ == (ChatState {
                attachments: Seq::empty(),
                ..old(self)@
            }),
            !blank ==> (r matches Some(Request::Chat { text: t, attachment_paths: p }) && t
                == text && p@ == old(self)@.attachments),
    {
        if blank {
            return None;
        }
        let mut files = Vec::new();
        std::mem::swap(&mut files, &mut self.attachments);
        proof {
            assert(self.attachments@ =~= Seq::empty());
        }
        Some(Request::Chat { text, attachment_paths: files })
    }

    /// `prepare_chat`, where the text is blank when it is nothing but white space.
    pub fn prepare_submit(&mut self, text: String) -> (r: Option<Request>)
        ensures
            is_blank_text(text@) ==> r is None && final(self)@ == old(self)@,
            !is_blank_text(text@) ==> final(self)@ == (ChatState {
                attachments: Seq::empty(),
                ..old(self)@
            }),
            !is_blank_text(text@) ==> (r matches Some(
                Request::Chat { text: t, attachment_paths: p },
            ) && t == text && p@ == old(self)@.attachments),
    {
        let blank = is_blank(text.as_str());
        self.prepare_chat(text, blank)
    }

    /// Records how handing a chat request with `text` to the request queue
    /// went. On success the text is shown at once as the user's entry and
    /// the view turns busy; on failure an error entry is shown instead and
    /// the busy indicator keeps its value.
    pub fn finish_submit(&mut self, text: String, sent: Result<(), String>)
        ensures
            sent is Ok ==> final(self)@ == (ChatState {
                entries: old(self)@.entries.push((DisplayRole::User, text@)),
                busy: true,
                ..old(self)@
            }),
            sent matches Err(e) ==> final(self)@ == (ChatState {
                entries: old(self)@.entries.push(
                    (DisplayRole::Error, send_failure_message(e@)),
                ),
                ..old(self)@
            }),
    {
        match sent {
            Ok(()) => {
                self.add_message(DisplayEntry { role: DisplayRole::User, content: text });
                self.set_loading(true);
            },
            Err(e) => {
                let content = String::from_str("Failed to send: ").concat(e.as_str());
                self.add_message(DisplayEntry { role: DisplayRole::Error, content });
            },
        }
    }

    /// Records how handing a clear-history request to the request queue went.
    /// On success the display transcript is emptied at once and the view is
    /// no longer busy; on failure an error entry is shown and the busy
    /// indicator keeps its value.
    pub fn clear_chat(&mut self, sent: Result<(), String>)
        ensures
            sent is Ok ==> final(self)@ == (ChatState {
                entries: Seq::empty(),
                busy: false,
                ..old(self)@
            }),
            sent matches Err(e) ==> final(self)@ == (ChatState {
                entries: old(self)@.entries.push(
                    (DisplayRole::Error, clear_failure_message(e@)),
                ),
                ..old(self)@
            }),
    {
        match sent {
            Ok(()) => {
                self.entries = Vec::new();
                proof {
                    assert(self@.entries =~= Seq::empty());
                }
                self.set_loading(false);
            },
            Err(e) => {
                let content = String::from_str("Failed to clear chat: ").concat(e.as_str());
                self.add_message(DisplayEntry { role: DisplayRole::Error, content });
            },
        }
    }

    /// Applies one response from the actor. Text is shown as the assistant's
    /// entry and clears the busy indicator only when it is final; an error is
    /// shown as an error entry and always clears it. Once the response queue
    /// has closed nothing more is applied.
    pub fn handle_response(&mut self, response: Response)
        ensures
            final(self)@ == dispatch(old(self)@, response@),
            !old(self)@.listening ==> final(self)@ == old(self)@,
            old(self)@.listening ==> (response matches Response::TextResponse { text, is_final }
                ==> final(self)@ == (ChatState {
                entries: old(self)@.entries.push((DisplayRole::Assistant, text@)),
                busy: old(self)@.busy && !is_final,
                ..old(self)@
            })),
            old(self)@.listening ==> (response matches Response::Error { message }
                ==> final(self)@ == (ChatState {
                entries: old(self)@.entries.push((DisplayRole::Error, message@)),
                busy: false,
                ..old(self)@
            })),
    {
        if !self.listening {
            return;
        }
        let done = response.is_done();
        match response {
            Response::TextResponse { text, .. } => {
                self.add_message(DisplayEntry { role: DisplayRole::Assistant, content: text });
            },
            Response::Error { message } => {
                self.add_message(DisplayEntry { role: DisplayRole::Error, content: message });
            },
        }
        if done {
            self.set_loading(false);
        }
    }

    /// The response queue has closed: the busy indicator is cleared once and
    /// no response is taken any more.
    pub fn handle_closed(&mut self)
        ensures
            final(self)@ == (ChatState { busy: false, listening: false, ..old(self)@ }),
    {
        self.busy = false;
        self.listening = false;
    }
}

} // verus!
