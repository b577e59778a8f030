use vstd::prelude::*;

use crate::actor::{
    actor_wf, spec_next_action, step, turn_messages, upload_failure_message, Action, ActorView,
    Event, Phase,
};
use crate::chat::{dispatch, entry_of, ChatState};
use crate::message::{ContentBlock, FileSource, Request, ResponseView};

verus! {

/// The responses a sequence of events draws from the actor, in order, and the
/// state it is left in.
pub open spec fn run(s: ActorView, es: Seq<Event>) -> (ActorView, Seq<ResponseView>)
    decreases es.len(),
{
    if es.len() == 0 {
        (s, Seq::empty())
    } else {
        let (s1, rs) = run(s, es.drop_last());
        let (s2, r) = step(s1, es.last());
        (
            s2,
            match r {
                Some(x) => rs.push(x),
                None => rs,
            },
        )
    }
}

/// Whether a response ends the turn it belongs to.
pub open spec fn ends_turn(r: ResponseView) -> bool {
    match r {
        ResponseView::TextResponse { is_final, .. } => is_final,
        ResponseView::Error { .. } => true,
    }
}

/// Turns never interleave. The actor asks for a request only when no turn is
/// open; a request handed to it in the middle of a turn changes nothing and
/// emits nothing; taking a request emits nothing by itself; and a turn closes
/// only together with the response that ends it.
pub proof fn lemma_turns_do_not_interleave(s: ActorView, e: Event)
    requires
        actor_wf(s),
    ensures
        (spec_next_action(s) == Action::Receive) == (s.phase == Phase::Ready),
        (s.phase is Uploading || s.phase is Calling) && e is Request ==> step(s, e) == (s, None::<ResponseView>),
        s.phase is Ready ==> step(s, e).1 is None,
        (s.phase is Uploading || s.phase is Calling) && step(s, e).0.phase is Ready ==> (step(
            s,
            e,
        ).1 matches Some(r) && ends_turn(r)),
        actor_wf(step(s, e).0),
{
}

/// Responses come out in the order of the events that draw them: running two
/// sequences of events one after the other emits the responses of the first,
/// then those of the second.
pub proof fn lemma_responses_keep_event_order(s: ActorView, a: Seq<Event>, b: Seq<Event>)
    ensures
        run(s, a + b).0 == run(run(s, a).0, b).0,
        run(s, a + b).1 == run(s, a).1 + run(run(s, a).0, b).1,
    decreases b.len(),
{
    if b.len() == 0 {
        assert(a + b =~= a);
        assert(run(s, a).1 + run(run(s, a).0, b).1 =~= run(s, a).1);
    } else {
        assert((a + b).drop_last() =~= a + b.drop_last());
        assert((a + b).last() == b.last());
        lemma_responses_keep_event_order(s, a, b.drop_last());
        let ra = run(s, a).1;
        let rb = run(run(s, a).0, b.drop_last()).1;
        let (s1, _) = run(run(s, a).0, b.drop_last());
        match step(s1, b.last()).1 {
            Some(x) => {
                assert((ra + rb).push(x) =~= ra + rb.push(x));
            },
            None => {},
        }
    }
}

/// While attachments are uploaded the transcript stays as it is, and the turn
/// either goes on uploading or moves on to the chat call.
pub proof fn lemma_uploads_keep_transcript(s: ActorView, e: Event)
    requires
        actor_wf(s),
        s.phase is Uploading,
    ensures
        step(s, e).0.transcript == s.transcript,
        step(s, e).0.phase is Uploading || step(s, e).0.phase is Calling,
{
}

/// Clearing the history and then chatting opens a turn whose transcript is
/// empty: only the new content goes out with it.
pub proof fn lemma_clear_then_chat_sends_no_history(
    s: ActorView,
    text: String,
    paths: Vec<String>,
)
    requires
        actor_wf(s),
        s.phase is Ready,
    ensures
        ({
            let s1 = step(s, Event::Request(Request::ClearHistory)).0;
            let s2 = step(s1, Event::Request(Request::Chat { text, attachment_paths: paths })).0;
            &&& s2.transcript.len() == 0
            &&& s2.outgoing == seq![ContentBlock::Text { text }]
            &&& s2.phase is Uploading || s2.phase is Calling
        }),
{
}

/// Clearing the history empties the transcript, emits nothing, and clearing
/// it again changes nothing more.
pub proof fn lemma_clear_history_is_idempotent(s: ActorView)
    requires
        actor_wf(s),
        s.phase is Ready,
    ensures
        step(s, Event::Request(Request::ClearHistory)).0.transcript.len() == 0,
        step(s, Event::Request(Request::ClearHistory)).1 is None,
        step(step(s, Event::Request(Request::ClearHistory)).0, Event::Request(Request::ClearHistory))
            == step(s, Event::Request(Request::ClearHistory)),
{
}

/// Choosing a model empties the transcript, however long it was, and puts
/// the new model in the configuration.
pub proof fn lemma_set_model_empties_transcript(s: ActorView, model_id: String)
    requires
        actor_wf(s),
        s.phase is Ready,
    ensures
        step(s, Event::Request(Request::SetModel { model_id })).0.transcript.len() == 0,
        step(s, Event::Request(Request::SetModel { model_id })).0.config.model_id == model_id,
        step(s, Event::Request(Request::SetModel { model_id })).1 is None,
{
}

/// A failed upload is reported on its own and skipped; the turn goes on. With
/// two attachments of which the first fails and the second succeeds, exactly
/// one error names the first, and the content that goes out holds the text
/// and the document of the second only.
pub proof fn lemma_failed_upload_is_skipped(
    s: ActorView,
    text: String,
    paths: Vec<String>,
    err: String,
    file_id: String,
)
    requires
        actor_wf(s),
        s.phase is Ready,
        paths@.len() == 2,
    ensures
        ({
            let s1 = step(s, Event::Request(Request::Chat { text, attachment_paths: paths })).0;
            let (s2, r2) = step(s1, Event::Uploaded(Err(err)));
            let (s3, r3) = step(s2, Event::Uploaded(Ok(file_id)));
            &&& r2 == Some(
                ResponseView::Error { message: upload_failure_message(paths@[0]@, err@) },
            )
            &&& r3 is None
            &&& s3.phase is Calling
            &&& s3.transcript == s.transcript
            &&& s3.outgoing == seq![
                ContentBlock::Text { text },
                ContentBlock::Document { source: FileSource::File { file_id } },
            ]
        }),
{
    let s1 = step(s, Event::Request(Request::Chat { text, attachment_paths: paths })).0;
    let s2 = step(s1, Event::Uploaded(Err(err))).0;
    let s3 = step(s2, Event::Uploaded(Ok(file_id))).0;
    assert(s3.outgoing =~= seq![
        ContentBlock::Text { text },
        ContentBlock::Document { source: FileSource::File { file_id } },
    ]);
}

/// The events that report the outcomes of a turn's uploads, in order.
pub open spec fn upload_events(ups: Seq<Result<String, String>>) -> Seq<Event> {
    ups.map_values(|u: Result<String, String>| Event::Uploaded(u))
}

/// One error for each failed upload, naming its file, in path order.
pub open spec fn upload_errors(paths: Seq<String>, ups: Seq<Result<String, String>>) -> Seq<
    ResponseView,
>
    decreases ups.len(),
{
    if ups.len() == 0 {
        Seq::empty()
    } else {
        let prev = upload_errors(paths, ups.drop_last());
        match ups.last() {
            Ok(_) => prev,
            Err(e) => prev.push(
                ResponseView::Error { message: upload_failure_message(paths[ups.len() - 1]@, e@) },
            ),
        }
    }
}

/// One document for each successful upload, in path order.
pub open spec fn uploaded_documents(ups: Seq<Result<String, String>>) -> Seq<ContentBlock>
    decreases ups.len(),
{
    if ups.len() == 0 {
        Seq::empty()
    } else {
        let prev = uploaded_documents(ups.drop_last());
        match ups.last() {
            Ok(file_id) => prev.push(ContentBlock::Document { source: FileSource::File { file_id } }),
            Err(_) => prev,
        }
    }
}

/// The response that ends a turn whose chat call came back with `reply`.
pub open spec fn turn_result(reply: Result<String, String>) -> ResponseView {
    match reply {
        Ok(t) => ResponseView::TextResponse { text: t@, is_final: true },
        Err(e) => ResponseView::Error { message: e@ },
    }
}

/// The state of a turn on `text` and `paths` once the uploads `ups` came back.
pub open spec fn turn_state(
    s: ActorView,
    text: String,
    paths: Seq<String>,
    ups: Seq<Result<String, String>>,
) -> ActorView {
    ActorView {
        phase: if ups.len() < paths.len() { Phase::Uploading } else { Phase::Calling },
        paths,
        next: ups.len(),
        outgoing: seq![ContentBlock::Text { text }] + uploaded_documents(ups),
        ..s
    }
}

proof fn lemma_run_one(s: ActorView, e: Event)
    ensures
        run(s, seq![e]) == (step(s, e).0, match step(s, e).1 {
            Some(x) => seq![x],
            None => Seq::<ResponseView>::empty(),
        }),
{
    assert(seq![e].drop_last() =~= Seq::<Event>::empty());
    assert(seq![e].last() == e);
    assert(run(s, Seq::<Event>::empty()) == (s, Seq::<ResponseView>::empty()));
    match step(s, e).1 {
        Some(x) => {
            assert(Seq::<ResponseView>::empty().push(x) =~= seq![x]);
        },
        None => {},
    }
}

proof fn lemma_uploads_prefix(
    s: ActorView,
    text: String,
    paths: Vec<String>,
    ups: Seq<Result<String, String>>,
    k: int,
)
    requires
        s.phase is Ready,
        ups.len() == paths@.len(),
        0 <= k <= ups.len(),
    ensures
        run(
            s,
            seq![Event::Request(Request::Chat { text, attachment_paths: paths })] + upload_events(
                ups.take(k),
            ),
        ) == (turn_state(s, text, paths@, ups.take(k)), upload_errors(paths@, ups.take(k))),
    decreases k,
{
    let chat = Event::Request(Request::Chat { text, attachment_paths: paths });
    if k == 0 {
        assert(seq![chat] + upload_events(ups.take(0)) =~= seq![chat]);
        lemma_run_one(s, chat);
        assert(uploaded_documents(ups.take(0)) =~= Seq::<ContentBlock>::empty());
        assert(seq![ContentBlock::Text { text }] + Seq::<ContentBlock>::empty() =~= seq![
            ContentBlock::Text { text },
        ]);
        assert(upload_errors(paths@, ups.take(0)) =~= Seq::<ResponseView>::empty());
    } else {
        lemma_uploads_prefix(s, text, paths, ups, k - 1);
        let es = seq![chat] + upload_events(ups.take(k));
        assert(es.drop_last() =~= seq![chat] + upload_events(ups.take(k - 1)));
        assert(es.last() == Event::Uploaded(ups[k - 1]));
        assert(ups.take(k).drop_last() =~= ups.take(k - 1));
        assert(ups.take(k).last() == ups[k - 1]);
        let m = turn_state(s, text, paths@, ups.take(k - 1));
        match ups[k - 1] {
            Ok(file_id) => {
                assert(m.outgoing.push(ContentBlock::Document { source: FileSource::File { file_id } })
                    =~= seq![ContentBlock::Text { text }] + uploaded_documents(ups.take(k)));
            },
            Err(_) => {},
        }
    }
}

/// A whole chat turn, from the request to the reply. With one upload outcome
/// for each attachment, in path order, the turn emits one error for each
/// failed upload, naming its file, in path order, then exactly one result;
/// it ends ready for the next request, with the transcript grown by the turn
/// on success and unchanged on failure.
pub proof fn lemma_chat_turn(
    s: ActorView,
    text: String,
    paths: Vec<String>,
    ups: Seq<Result<String, String>>,
    reply: Result<String, String>,
)
    requires
        s.phase is Ready,
        ups.len() == paths@.len(),
    ensures
        ({
            let es = seq![Event::Request(Request::Chat { text, attachment_paths: paths })]
                + upload_events(ups) + seq![Event::Replied(reply)];
            let (f, rs) = run(s, es);
            &&& rs == upload_errors(paths@, ups).push(turn_result(reply))
            &&& f.phase is Ready
            &&& f.paths.len() == 0
            &&& f.config == s.config
            &&& reply is Ok ==> f.transcript == s.transcript + turn_messages(
                seq![ContentBlock::Text { text }] + uploaded_documents(ups),
                reply->Ok_0,
            )
            &&& reply is Err ==> f.transcript == s.transcript
        }),
{
    let chat = Event::Request(Request::Chat { text, attachment_paths: paths });
    lemma_uploads_prefix(s, text, paths, ups, ups.len() as int);
    assert(ups.take(ups.len() as int) =~= ups);
    let es = seq![chat] + upload_events(ups) + seq![Event::Replied(reply)];
    assert(es.drop_last() =~= seq![chat] + upload_events(ups));
    assert(es.last() == Event::Replied(reply));
}

/// A request as it was handled: for a chat request, the outcome of each of
/// its uploads, in path order, and of its chat call.
pub struct Handled {
    pub request: Request,
    pub uploads: Seq<Result<String, String>>,
    pub reply: Result<String, String>,
}

/// A chat request has one upload outcome for each attachment.
pub open spec fn handled_wf(h: Handled) -> bool {
    h.request matches Request::Chat { attachment_paths, .. } ==> h.uploads.len()
        == attachment_paths@.len()
}

/// The events that handling `h` hands to the actor, in order.
pub open spec fn events_of(h: Handled) -> Seq<Event> {
    match h.request {
        Request::Chat { .. } => seq![Event::Request(h.request)] + upload_events(h.uploads)
            + seq![Event::Replied(h.reply)],
        _ => seq![Event::Request(h.request)],
    }
}

/// The responses that handling `h` owes: none for clearing the history or
/// choosing a model; for a chat, the upload errors then the turn's result.
pub open spec fn responses_of(h: Handled) -> Seq<ResponseView> {
    match h.request {
        Request::Chat { attachment_paths, .. } => upload_errors(attachment_paths@, h.uploads).push(
            turn_result(h.reply),
        ),
        _ => Seq::empty(),
    }
}

pub open spec fn all_events(hs: Seq<Handled>) -> Seq<Event>
    decreases hs.len(),
{
    if hs.len() == 0 {
        Seq::empty()
    } else {
        all_events(hs.drop_last()) + events_of(hs.last())
    }
}

pub open spec fn all_responses(hs: Seq<Handled>) -> Seq<ResponseView>
    decreases hs.len(),
{
    if hs.len() == 0 {
        Seq::empty()
    } else {
        all_responses(hs.drop_last()) + responses_of(hs.last())
    }
}

/// Sequential consistency of the queue pair: requests handled one after the
/// other, from a ready actor, emit exactly the responses each request owes,
/// request by request in the order they were queued, with nothing of one
/// request between those of another; the actor is ready again after each.
pub proof fn lemma_requests_answered_in_order(s: ActorView, hs: Seq<Handled>)
    requires
        s.phase is Ready,
        forall|i: int| 0 <= i < hs.len() ==> handled_wf(#[trigger] hs[i]),
    ensures
        run(s, all_events(hs)).1 == all_responses(hs),
        run(s, all_events(hs)).0.phase is Ready,
    decreases hs.len(),
{
    if hs.len() == 0 {
        assert(all_events(hs) =~= Seq::<Event>::empty());
    } else {
        let init = hs.drop_last();
        assert forall|i: int| 0 <= i < init.len() implies handled_wf(#[trigger] init[i]) by {
            assert(init[i] == hs[i]);
        }
        lemma_requests_answered_in_order(s, init);
        let m = run(s, all_events(init)).0;
        lemma_responses_keep_event_order(s, all_events(init), events_of(hs.last()));
        let h = hs.last();
        assert(handled_wf(hs[hs.len() - 1]));
        match h.request {
            Request::Chat { text, attachment_paths } => {
                lemma_chat_turn(m, text, attachment_paths, h.uploads, h.reply);
            },
            _ => {
                lemma_run_one(m, Event::Request(h.request));
                assert(all_responses(init) + Seq::<ResponseView>::empty() =~= all_responses(init));
            },
        }
    }
}

/// The view after it takes the responses `rs`, in order.
pub open spec fn dispatch_all(st: ChatState, rs: Seq<ResponseView>) -> ChatState
    decreases rs.len(),
{
    if rs.len() == 0 {
        st
    } else {
        dispatch(dispatch_all(st, rs.drop_last()), rs.last())
    }
}

/// While the response queue is open, each response becomes exactly one
/// display entry, in queue order, none dropped or reordered, and the busy
/// indicator is clear after a response that ends a turn.
pub proof fn lemma_responses_shown_in_order(st: ChatState, rs: Seq<ResponseView>)
    requires
        st.listening,
    ensures
        dispatch_all(st, rs).entries == st.entries + rs.map_values(|r: ResponseView| entry_of(r)),
        dispatch_all(st, rs).listening,
        rs.len() > 0 && ends_turn(rs.last()) ==> !dispatch_all(st, rs).busy,
    decreases rs.len(),
{
    if rs.len() == 0 {
        assert(st.entries + rs.map_values(|r: ResponseView| entry_of(r)) =~= st.entries);
    } else {
        lemma_responses_shown_in_order(st, rs.drop_last());
        assert(rs.map_values(|r: ResponseView| entry_of(r)) =~= rs.drop_last().map_values(
            |r: ResponseView| entry_of(r),
        ).push(entry_of(rs.last())));
        assert(st.entries + rs.map_values(|r: ResponseView| entry_of(r)) =~= (st.entries
            + rs.drop_last().map_values(|r: ResponseView| entry_of(r))).push(entry_of(rs.last())));
    }
}

/// Once the response queue has closed, the view takes nothing more: any
/// later responses leave it as it is.
pub proof fn lemma_closed_view_takes_nothing(st: ChatState, rs: Seq<ResponseView>)
    requires
        !st.listening,
    ensures
        dispatch_all(st, rs) == st,
    decreases rs.len(),
{
    if rs.len() > 0 {
        lemma_closed_view_takes_nothing(st, rs.drop_last());
    }
}

} // verus!
