use chatai::actor::{Action, ConversationActor, Event, Phase};
use chatai::message::{AgentConfig, ContentBlock, FileSource, MessageRole, Request, Response};
use chatai::models::default_config;

fn config() -> AgentConfig {
    AgentConfig {
        system_prompt: "be brief".to_string(),
        max_tokens: 128,
        model_id: "m0".to_string(),
    }
}

fn ready() -> ConversationActor {
    let (actor, r) = ConversationActor::start(config(), true);
    assert!(r.is_none());
    actor
}

fn chat(text: &str, paths: &[&str]) -> Event {
    Event::Request(Request::Chat {
        text: text.to_string(),
        attachment_paths: paths.iter().map(|p| p.to_string()).collect(),
    })
}

fn expect_text(r: Option<Response>) -> (String, bool) {
    match r {
        Some(Response::TextResponse { text, is_final }) => (text, is_final),
        other => panic!("expected a text response, got {:?}", other),
    }
}

fn expect_error(r: Option<Response>) -> String {
    match r {
        Some(Response::Error { message }) => message,
        other => panic!("expected an error, got {:?}", other),
    }
}

fn one_turn(actor: &mut ConversationActor, text: &str, reply: &str) {
    assert!(actor.handle(chat(text, &[])).is_none());
    assert_eq!(actor.next_action(), Action::CallAgent);
    let (t, fin) = expect_text(actor.handle(Event::Replied(Ok(reply.to_string()))));
    assert_eq!(t, reply);
    assert!(fin);
}

#[test]
fn starts_ready_with_empty_transcript() {
    let actor = ready();
    assert_eq!(actor.phase(), Phase::Ready);
    assert_eq!(actor.next_action(), Action::Receive);
    assert!(actor.transcript().is_empty());
    assert_eq!(actor.config().model_id, "m0");
}

#[test]
fn failed_construction_reports_once_and_terminates() {
    let (mut actor, r) = ConversationActor::start(config(), false);
    assert_eq!(expect_error(r), "Failed to initialize agent");
    assert_eq!(actor.phase(), Phase::Terminated);
    assert_eq!(actor.next_action(), Action::Stop);
    assert!(actor.handle(chat("Hello", &[])).is_none());
    assert_eq!(actor.phase(), Phase::Terminated);
}

#[test]
fn successful_turn_appends_user_and_assistant() {
    let mut actor = ready();
    one_turn(&mut actor, "Hello", "Hi there");
    assert_eq!(actor.phase(), Phase::Ready);
    let t = actor.transcript();
    assert_eq!(t.len(), 2);
    assert_eq!(t[0].role, MessageRole::User);
    assert_eq!(t[1].role, MessageRole::Assistant);
    match &t[0].content[..] {
        [ContentBlock::Text { text }] => assert_eq!(text, "Hello"),
        other => panic!("unexpected content {:?}", other),
    }
    match &t[1].content[..] {
        [ContentBlock::Text { text }] => assert_eq!(text, "Hi there"),
        other => panic!("unexpected content {:?}", other),
    }
    assert!(actor.outgoing().is_empty());
}

#[test]
fn failed_turn_reports_and_keeps_transcript() {
    let mut actor = ready();
    one_turn(&mut actor, "a", "b");
    assert!(actor.handle(chat("c", &[])).is_none());
    assert_eq!(expect_error(actor.handle(Event::Replied(Err("timeout".to_string())))), "timeout");
    assert_eq!(actor.phase(), Phase::Ready);
    assert_eq!(actor.transcript().len(), 2);
}

#[test]
fn clear_then_chat_sends_empty_transcript() {
    let mut actor = ready();
    one_turn(&mut actor, "a", "b");
    one_turn(&mut actor, "c", "d");
    assert_eq!(actor.transcript().len(), 4);
    assert!(actor.handle(Event::Request(Request::ClearHistory)).is_none());
    assert!(actor.handle(chat("fresh", &[])).is_none());
    assert_eq!(actor.next_action(), Action::CallAgent);
    assert_eq!(actor.transcript().len(), 0);
    assert_eq!(actor.outgoing().len(), 1);
}

#[test]
fn clear_history_is_idempotent() {
    let mut actor = ready();
    one_turn(&mut actor, "a", "b");
    assert!(actor.handle(Event::Request(Request::ClearHistory)).is_none());
    assert!(actor.handle(Event::Request(Request::ClearHistory)).is_none());
    assert_eq!(actor.transcript().len(), 0);
    assert_eq!(actor.phase(), Phase::Ready);
}

#[test]
fn set_model_empties_transcript() {
    let mut actor = ready();
    one_turn(&mut actor, "a", "b");
    one_turn(&mut actor, "c", "d");
    let r = actor.handle(Event::Request(Request::SetModel { model_id: "m1".to_string() }));
    assert!(r.is_none());
    assert_eq!(actor.transcript().len(), 0);
    assert_eq!(actor.config().model_id, "m1");
    assert_eq!(actor.config().system_prompt, "be brief");
    assert_eq!(actor.config().max_tokens, 128);
}

#[test]
fn set_model_on_empty_transcript() {
    let mut actor = ready();
    actor.handle(Event::Request(Request::SetModel { model_id: "m2".to_string() }));
    assert_eq!(actor.transcript().len(), 0);
    assert_eq!(actor.config().model_id, "m2");
}

#[test]
fn failed_upload_is_reported_and_skipped() {
    let mut actor = ready();
    assert!(actor.handle(chat("x", &["a.pdf", "b.pdf"])).is_none());
    assert_eq!(actor.next_action(), Action::Upload);
    assert_eq!(actor.upload_path().unwrap(), "a.pdf");
    let err = expect_error(actor.handle(Event::Uploaded(Err("not found".to_string()))));
    assert_eq!(err, "Failed to upload file a.pdf: not found");
    assert_eq!(actor.next_action(), Action::Upload);
    assert_eq!(actor.upload_path().unwrap(), "b.pdf");
    assert!(actor.handle(Event::Uploaded(Ok("file-b".to_string()))).is_none());
    assert_eq!(actor.next_action(), Action::CallAgent);
    assert!(actor.upload_path().is_none());
    let out = actor.outgoing();
    assert_eq!(out.len(), 2);
    match &out[0] {
        ContentBlock::Text { text } => assert_eq!(text, "x"),
        other => panic!("unexpected block {:?}", other),
    }
    match &out[1] {
        ContentBlock::Document { source: FileSource::File { file_id } } => {
            assert_eq!(file_id, "file-b")
        }
        other => panic!("unexpected block {:?}", other),
    }
}

#[test]
fn uploads_keep_path_order() {
    let mut actor = ready();
    actor.handle(chat("x", &["1", "2", "3"]));
    for (i, p) in ["1", "2", "3"].iter().enumerate() {
        assert_eq!(actor.upload_path().unwrap(), p);
        actor.handle(Event::Uploaded(Ok(format!("id{}", i))));
    }
    let ids: Vec<String> = actor.outgoing()[1..]
        .iter()
        .map(|b| match b {
            ContentBlock::Document { source: FileSource::File { file_id } } => file_id.clone(),
            other => panic!("unexpected block {:?}", other),
        })
        .collect();
    assert_eq!(ids, vec!["id0", "id1", "id2"]);
}

#[test]
fn requests_mid_turn_change_nothing() {
    let mut actor = ready();
    actor.handle(chat("x", &["a"]));
    assert!(actor.handle(Event::Request(Request::ClearHistory)).is_none());
    assert!(actor.handle(Event::Replied(Ok("early".to_string()))).is_none());
    assert_eq!(actor.phase(), Phase::Uploading);
    actor.handle(Event::Uploaded(Ok("f".to_string())));
    assert!(actor.handle(chat("y", &[])).is_none());
    assert_eq!(actor.phase(), Phase::Calling);
    assert_eq!(actor.outgoing().len(), 2);
}

#[test]
fn responses_follow_request_order() {
    let mut actor = ready();
    let mut emitted = Vec::new();
    let events = vec![
        chat("one", &["bad"]),
        Event::Uploaded(Err("e1".to_string())),
        Event::Replied(Ok("r1".to_string())),
        chat("two", &[]),
        Event::Replied(Err("e2".to_string())),
        chat("three", &[]),
        Event::Replied(Ok("r3".to_string())),
    ];
    for e in events {
        if let Some(r) = actor.handle(e) {
            emitted.push(match r {
                Response::TextResponse { text, .. } => text,
                Response::Error { message } => message,
            });
        }
    }
    assert_eq!(
        emitted,
        vec!["Failed to upload file bad: e1", "r1", "e2", "r3"]
    );
    assert_eq!(actor.transcript().len(), 4);
}

#[test]
fn closed_queue_terminates() {
    let mut actor = ready();
    assert!(actor.handle(Event::Closed).is_none());
    assert_eq!(actor.next_action(), Action::Stop);
}

#[test]
fn default_configuration() {
    let c = default_config("model-a".to_string());
    assert_eq!(c.max_tokens, 4096);
    assert_eq!(c.model_id, "model-a");
    assert_eq!(
        c.system_prompt,
        "You are a helpful, succint assistant. Please respond only in markdown and no emojis."
    );
}
