//! What holds of a render session over every sequence of events.

use vstd::prelude::*;
use crate::channel::{
    spec_answers, spec_frame, spec_payload, spec_print_method, spec_print_params,
    spec_set_content_method, spec_set_content_params,
};
use crate::error::RenderError;
use crate::json::{base64_decoded, json_member, json_parsed, json_text};
use crate::session::{
    spec_new, spec_run, spec_step, spec_terminal, spec_wf, ActionView, EventView, Phase,
    SessionView,
};

verus! {

/// How many of the actions that a sequence of events draws from a session ask
/// for the tab to be closed.
pub open spec fn spec_close_requests(s: SessionView, events: Seq<EventView>) -> nat
    decreases events.len(),
{
    if events.len() == 0 {
        0
    } else {
        spec_close_requests(s, events.drop_last()) + (if spec_step(
            spec_run(s, events.drop_last()),
            events.last(),
        ).1 is CloseTab {
            1nat
        } else {
            0nat
        })
    }
}

/// How many of the actions that a sequence of events draws from a session ask
/// for a tab to be created.
pub open spec fn spec_create_requests(s: SessionView, events: Seq<EventView>) -> nat
    decreases events.len(),
{
    if events.len() == 0 {
        0
    } else {
        spec_create_requests(s, events.drop_last()) + (if spec_step(
            spec_run(s, events.drop_last()),
            events.last(),
        ).1 is CreateTab {
            1nat
        } else {
            0nat
        })
    }
}

/// How many of the actions that a sequence of events draws from a session ask
/// for the slot to be released.
pub open spec fn spec_release_requests(s: SessionView, events: Seq<EventView>) -> nat
    decreases events.len(),
{
    if events.len() == 0 {
        0
    } else {
        spec_release_requests(s, events.drop_last()) + (if spec_step(
            spec_run(s, events.drop_last()),
            events.last(),
        ).1 is ReleaseSlot {
            1nat
        } else {
            0nat
        })
    }
}

/// The channel address in the body of a tab-creation response, if it has one.
pub open spec fn spec_channel_address(body: Seq<char>) -> Option<Seq<char>> {
    match json_parsed(body) {
        Some(v) => json_text(json_member(v, "webSocketDebuggerUrl"@)),
        None => None,
    }
}

/// One step counts each close request, names the session's own tab in it,
/// keeps the tab once there is one, and keeps the outcome once there is one.
pub proof fn lemma_step_bookkeeping(s: SessionView, e: EventView)
    requires
        spec_wf(s),
    ensures
        ({
            let t = spec_step(s, e).0;
            let a = spec_step(s, e).1;
            &&& spec_wf(t)
            &&& t.close_calls == s.close_calls + (if a is CloseTab {
                1nat
            } else {
                0nat
            })
            &&& (a matches ActionView::CloseTab(id) ==> s.tab matches Some(tab) && tab.id == id)
            &&& (s.tab is Some ==> t.tab == s.tab)
            &&& (s.outcome is Some ==> t.outcome == s.outcome)
            &&& (a is ReleaseSlot ==> s.slot_held)
            &&& t.release_calls == s.release_calls + (if a is ReleaseSlot {
                1nat
            } else {
                0nat
            })
            &&& t.content == s.content
            &&& t.landscape == s.landscape
        }),
{
}

/// A run keeps what each step keeps.
pub proof fn lemma_run_bookkeeping(s: SessionView, events: Seq<EventView>)
    requires
        spec_wf(s),
    ensures
        ({
            let end = spec_run(s, events);
            &&& spec_wf(end)
            &&& end.close_calls == s.close_calls + spec_close_requests(s, events)
            &&& end.release_calls == s.release_calls + spec_release_requests(s, events)
            &&& (s.tab is Some ==> end.tab == s.tab)
            &&& (s.outcome is Some ==> end.outcome == s.outcome)
        }),
    decreases events.len(),
{
    if events.len() > 0 {
        lemma_run_bookkeeping(s, events.drop_last());
        lemma_step_bookkeeping(spec_run(s, events.drop_last()), events.last());
    }
}

/// Whatever events a session meets, it asks for its tab to be closed at most
/// once. Once it has concluded, with a document, an error or the deadline, it
/// has asked exactly once if a tab was created and never if none was; before
/// that it has not asked. A session that has ended holds no slot.
pub proof fn lemma_tab_closed_exactly_once(
    content: Seq<char>,
    landscape: bool,
    events: Seq<EventView>,
)
    ensures
        ({
            let end = spec_run(spec_new(content, landscape), events);
            let closes = spec_close_requests(spec_new(content, landscape), events);
            &&& closes <= 1
            &&& end.outcome is None ==> closes == 0
            &&& end.outcome is Some && end.tab is Some ==> closes == 1
            &&& end.outcome is Some && end.tab is None ==> closes == 0
            &&& spec_terminal(end) ==> end.outcome is Some && !end.slot_held
        }),
{
    lemma_run_bookkeeping(spec_new(content, landscape), events);
}

/// A session is granted at most one slot and asks at most once for it to be
/// released. It asks for a tab only once, on being granted the slot, and a
/// session that has ended has asked for the release exactly once if it was
/// granted a slot and never if it was not, and holds none.
pub proof fn lemma_slot_released_exactly_once(
    content: Seq<char>,
    landscape: bool,
    events: Seq<EventView>,
)
    ensures
        ({
            let start = spec_new(content, landscape);
            let end = spec_run(start, events);
            let creates = spec_create_requests(start, events);
            let releases = spec_release_requests(start, events);
            &&& spec_wf(end)
            &&& creates <= 1
            &&& releases <= creates
            &&& releases == end.release_calls
            &&& creates == 0 <==> end.phase == Phase::Idle || (end.phase == Phase::Failed
                && releases == 0)
            &&& spec_terminal(end) ==> releases == creates && !end.slot_held
        }),
    decreases events.len(),
{
    let start = spec_new(content, landscape);
    lemma_run_bookkeeping(start, events);
    if events.len() > 0 {
        lemma_slot_released_exactly_once(content, landscape, events.drop_last());
        lemma_run_bookkeeping(start, events.drop_last());
        lemma_step_bookkeeping(spec_run(start, events.drop_last()), events.last());
    }
}

/// Each command that a session sends carries the id after the last one, in a
/// frame of one of the two commands; nothing else moves the counter. The
/// print command goes out only on the frame that answers the content command,
/// and a frame with another id, or none, is passed over.
pub proof fn lemma_command_ids_count_up(s: SessionView, e: EventView)
    requires
        spec_wf(s),
    ensures
        ({
            let t = spec_step(s, e).0;
            let a = spec_step(s, e).1;
            &&& (a matches ActionView::Send(text) ==> {
                &&& t.last_id == s.last_id + 1
                &&& s.tab is Some
                &&& s.last_id == 0 ==> text == spec_frame(
                    1,
                    spec_set_content_method(),
                    spec_set_content_params(s.tab->0.id, s.content),
                )
                &&& s.last_id != 0 ==> {
                    &&& s.last_id == 1
                    &&& e matches EventView::Frame(ack) && spec_answers(ack, 1)
                    &&& text == spec_frame(2, spec_print_method(), spec_print_params(s.landscape))
                }
            })
            &&& (!(a is Send) ==> t.last_id == s.last_id)
            &&& (e matches EventView::Frame(other) && !spec_answers(other, s.last_id) && (s.phase
                == Phase::ContentSetting || s.phase == Phase::Printing) ==> t == s && a
                == ActionView::Receive)
        }),
{
}

/// While a session waits for the response to a command, any number of frames
/// with another id, or none, leave it as it was.
pub proof fn lemma_unsolicited_frames_are_skipped(s: SessionView, frames: Seq<Seq<char>>)
    requires
        spec_wf(s),
        s.phase == Phase::ContentSetting || s.phase == Phase::Printing,
        forall|i: int| 0 <= i < frames.len() ==> !spec_answers(#[trigger] frames[i], s.last_id),
    ensures
        spec_run(s, frames.map_values(|text: Seq<char>| EventView::Frame(text))) == s,
    decreases frames.len(),
{
    let events = frames.map_values(|text: Seq<char>| EventView::Frame(text));
    if frames.len() > 0 {
        let before = frames.drop_last();
        lemma_unsolicited_frames_are_skipped(s, before);
        assert(events.drop_last() =~= before.map_values(|text: Seq<char>| EventView::Frame(text)));
        assert(events.last() == EventView::Frame(frames.last()));
        lemma_command_ids_count_up(s, events.last());
    }
}

/// A tab is asked for only in answer to a granted slot, and from then on the
/// session holds the slot until it has released it; a session that waits for
/// a slot, or has ended, holds none.
pub proof fn lemma_tab_creation_needs_slot(s: SessionView, e: EventView)
    requires
        spec_wf(s),
    ensures
        spec_step(s, e).1 is CreateTab ==> e is SlotAcquired && s.phase == Phase::Idle
            && !s.slot_held && spec_step(s, e).0.slot_held,
        s.phase == Phase::Idle || spec_terminal(s) ==> !s.slot_held,
        s.phase != Phase::Idle && !spec_terminal(s) ==> s.slot_held,
        s.slot_held && !spec_step(s, e).0.slot_held ==> e is SlotReleased,
{
}

/// The deadline concludes a session that has not concluded with the timeout
/// error, whatever it was waiting for. No later event changes that, such a
/// session ends only as failed and without its slot, and it does end once the
/// close call has come back, however it went, and the slot is released.
pub proof fn lemma_deadline_fails_with_timeout(
    s: SessionView,
    later: Seq<EventView>,
    close_ok: bool,
)
    requires
        spec_wf(s),
        s.outcome is None,
    ensures
        ({
            let t = spec_step(s, EventView::DeadlineExceeded).0;
            let end = spec_run(t, later);
            let closed = spec_step(t, EventView::TabClosed(close_ok)).0;
            let released = spec_step(closed, EventView::SlotReleased).0;
            &&& t.outcome == Some(Err::<Seq<u8>, RenderError>(RenderError::TimeoutError))
            &&& end.outcome == t.outcome
            &&& spec_terminal(end) ==> end.phase == Phase::Failed && !end.slot_held
            &&& released.phase == Phase::Failed
            &&& !released.slot_held
            &&& released.outcome == t.outcome
        }),
{
    let t = spec_step(s, EventView::DeadlineExceeded).0;
    lemma_step_bookkeeping(s, EventView::DeadlineExceeded);
    lemma_run_bookkeeping(t, later);
    lemma_step_bookkeeping(t, EventView::TabClosed(close_ok));
}

/// A tab-creation response without a channel address fails the session with
/// the connection error, and the session never asks for a channel to be
/// opened, then or later.
pub proof fn lemma_missing_address_opens_no_channel(
    s: SessionView,
    body: Seq<char>,
    later: Seq<EventView>,
    e: EventView,
)
    requires
        spec_wf(s),
        s.phase == Phase::TabCreating,
        spec_channel_address(body) is None,
    ensures
        ({
            let t = spec_step(s, EventView::TabResponse(body)).0;
            &&& t.outcome == Some(Err::<Seq<u8>, RenderError>(RenderError::ConnectionError))
            &&& t.tab is None
            &&& !(spec_step(s, EventView::TabResponse(body)).1 is OpenChannel)
            &&& !(spec_step(spec_run(t, later), e).1 is OpenChannel)
            &&& spec_close_requests(t, later) == 0
        }),
{
    let t = spec_step(s, EventView::TabResponse(body)).0;
    lemma_step_bookkeeping(s, EventView::TabResponse(body));
    lemma_run_bookkeeping(t, later);
    lemma_never_reopens(t, later);
}

/// A session without a tab that has concluded never gets one.
proof fn lemma_never_reopens(s: SessionView, events: Seq<EventView>)
    requires
        spec_wf(s),
        s.outcome is Some,
        s.tab is None,
    ensures
        spec_run(s, events).tab is None,
        spec_run(s, events).outcome is Some,
    decreases events.len(),
{
    if events.len() > 0 {
        lemma_never_reopens(s, events.drop_last());
        lemma_run_bookkeeping(s, events.drop_last());
    }
}

/// The document that an event delivers to a session waiting for its print
/// response: the event is a frame that answers the print command and carries
/// a payload that is not empty and decodes.
pub open spec fn spec_delivered(e: EventView) -> Option<Seq<u8>> {
    match e {
        EventView::Frame(text) => match spec_payload(text) {
            Some(p) => if spec_answers(text, 2) && p.len() > 0 {
                base64_decoded(p)
            } else {
                None
            },
            None => None,
        },
        _ => None,
    }
}

/// A session concludes with a document exactly where it waits for its print
/// response and the event delivers one, and the document is the payload
/// decoded; no other step yields a document.
pub proof fn lemma_document_comes_from_payload(s: SessionView, e: EventView)
    requires
        spec_wf(s),
        s.outcome is None,
    ensures
        match spec_step(s, e).0.outcome {
            Some(Ok(bytes)) => s.phase == Phase::Printing && spec_delivered(e) == Some(bytes),
            _ => s.phase != Phase::Printing || spec_delivered(e) is None,
        },
{
}

} // verus!
