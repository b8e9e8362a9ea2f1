//! The render workflow as a state machine. A session takes one event at a
//! time and answers with the next action; performing the action, and waiting
//! for what comes of it, is the caller's part.
//!
//! The deadline concludes a session wherever it stands. A session that has a
//! tab still asks for it to be closed, on the timeout path as on every other;
//! a deadline that passes while the close call is out gives up the wait and
//! records the call as failed, without touching the outcome.

use vstd::prelude::*;
use crate::channel::{
    answers, document, payload, print_params, set_content_params, spec_answers,
    spec_document, spec_frame, spec_payload, spec_print_method, spec_print_params,
    spec_set_content_method, spec_set_content_params, CommandChannel,
};
use crate::error::RenderError;
use crate::tab::{parse_tab, spec_parse_tab, Tab, TabView};

verus! {

/// What is to be rendered.
#[derive(Debug)]
pub struct RenderRequest {
    /// The HTML text.
    pub content: String,
    /// Whether the page is printed in landscape.
    pub landscape: bool,
}

impl RenderRequest {
    /// A request to render `content` in portrait, the orientation of a
    /// request that names none.
    pub fn new(content: String) -> (r: RenderRequest)
        ensures
            r.content == content,
            !r.landscape,
    {
        RenderRequest { content, landscape: false }
    }
}

/// Where a render session stands.
#[derive(Clone, Copy, Debug, PartialEq, Eq, Structural)]
pub enum Phase {
    /// Waiting for a slot of the concurrency gate.
    Idle,
    /// Waiting for the control plane to create the tab.
    TabCreating,
    /// Waiting for the command channel to open.
    ChannelOpening,
    /// The content command is out; waiting for its acknowledgment.
    ContentSetting,
    /// The content was acknowledged and the print command is being written.
    ContentAcked,
    /// The print command is out; waiting for its response.
    Printing,
    /// The print response held a document; the tab is being closed.
    PrintAcked,
    /// The session has failed or the tab was closed; what is held is being released.
    Cleanup,
    /// Ended with a document.
    Done,
    /// Ended with an error.
    Failed,
}

/// What happened outside since the last action.
#[derive(Debug, PartialEq, Eq)]
pub enum Event {
    /// A slot was granted.
    SlotAcquired,
    /// The permit pool is shut.
    GateFailed,
    /// The control plane answered the tab-creation call with this body.
    TabResponse(String),
    /// The control plane could not be reached or sent no readable body.
    ControlPlaneFailed,
    /// The command channel is open.
    ChannelOpened,
    /// The command channel could not be opened.
    ChannelFailed,
    /// The frame was written.
    Sent,
    /// The frame could not be written.
    SendFailed,
    /// A text frame arrived.
    Frame(String),
    /// The command channel closed or failed while reading.
    ChannelClosed,
    /// The close call was made; the flag says whether it succeeded.
    TabClosed(bool),
    /// The slot went back to the pool.
    SlotReleased,
    /// The overall deadline passed.
    DeadlineExceeded,
}

pub enum EventView {
    SlotAcquired,
    GateFailed,
    TabResponse(Seq<char>),
    ControlPlaneFailed,
    ChannelOpened,
    ChannelFailed,
    Sent,
    SendFailed,
    Frame(Seq<char>),
    ChannelClosed,
    TabClosed(bool),
    SlotReleased,
    DeadlineExceeded,
}

impl View for Event {
    type V = EventView;

    open spec fn view(&self) -> EventView {
        match self {
            Event::SlotAcquired => EventView::SlotAcquired,
            Event::GateFailed => EventView::GateFailed,
            Event::TabResponse(body) => EventView::TabResponse(body@),
            Event::ControlPlaneFailed => EventView::ControlPlaneFailed,
            Event::ChannelOpened => EventView::ChannelOpened,
            Event::ChannelFailed => EventView::ChannelFailed,
            Event::Sent => EventView::Sent,
            Event::SendFailed => EventView::SendFailed,
            Event::Frame(text) => EventView::Frame(text@),
            Event::ChannelClosed => EventView::ChannelClosed,
            Event::TabClosed(ok) => EventView::TabClosed(*ok),
            Event::SlotReleased => EventView::SlotReleased,
            Event::DeadlineExceeded => EventView::DeadlineExceeded,
        }
    }
}

/// What is to be done outside next.
#[derive(Debug, PartialEq, Eq)]
pub enum Action {
    /// Ask the control plane for a new tab.
    CreateTab,
    /// Open the command channel at this address.
    OpenChannel(String),
    /// Write this text frame to the command channel.
    Send(String),
    /// Read the next frame from the command channel.
    Receive,
    /// Ask the control plane to close the tab with this id, whatever comes of it.
    CloseTab(String),
    /// Give the slot back to the pool.
    ReleaseSlot,
    /// The session has ended; its outcome can be taken.
    Finish,
    /// The event does not belong to this phase; nothing changed.
    Ignore,
}

pub enum ActionView {
    CreateTab,
    OpenChannel(Seq<char>),
    Send(Seq<char>),
    Receive,
    CloseTab(Seq<char>),
    ReleaseSlot,
    Finish,
    Ignore,
}

impl View for Action {
    type V = ActionView;

    open spec fn view(&self) -> ActionView {
        match self {
            Action::CreateTab => ActionView::CreateTab,
            Action::OpenChannel(address) => ActionView::OpenChannel(address@),
            Action::Send(text) => ActionView::Send(text@),
            Action::Receive => ActionView::Receive,
            Action::CloseTab(id) => ActionView::CloseTab(id@),
            Action::ReleaseSlot => ActionView::ReleaseSlot,
            Action::Finish => ActionView::Finish,
            Action::Ignore => ActionView::Ignore,
        }
    }
}

/// A session as plain values.
pub struct SessionView {
    pub content: Seq<char>,
    pub landscape: bool,
    pub phase: Phase,
    /// The tab, once the control plane has created it.
    pub tab: Option<TabView>,
    /// The id of the command sent last, 0 before the first.
    pub last_id: nat,
    pub slot_held: bool,
    /// How many times the session asked for its tab to be closed.
    pub close_calls: nat,
    /// How the close call ended, once it has.
    pub close_recorded: Option<bool>,
    /// How many times the session asked for its slot to be released.
    pub release_calls: nat,
    /// The document or the error, once the session has concluded.
    pub outcome: Option<Result<Seq<u8>, RenderError>>,
}

pub open spec fn result_view(r: Result<Vec<u8>, RenderError>) -> Result<Seq<u8>, RenderError> {
    match r {
        Ok(bytes) => Ok(bytes@),
        Err(e) => Err(e),
    }
}

pub open spec fn outcome_view(o: Option<Result<Vec<u8>, RenderError>>) -> Option<
    Result<Seq<u8>, RenderError>,
> {
    match o {
        Some(r) => Some(result_view(r)),
        None => None,
    }
}

/// A fresh session: it holds nothing and waits for a slot.
pub open spec fn spec_new(content: Seq<char>, landscape: bool) -> SessionView {
    SessionView {
        content,
        landscape,
        phase: Phase::Idle,
        tab: None,
        last_id: 0,
        slot_held: false,
        close_calls: 0,
        close_recorded: None,
        release_calls: 0,
        outcome: None,
    }
}

/// Whether the session has ended.
pub open spec fn spec_terminal(s: SessionView) -> bool {
    s.phase == Phase::Done || s.phase == Phase::Failed
}

/// Whether the session waits for its close call to come back.
pub open spec fn spec_close_pending(s: SessionView) -> bool {
    s.tab is Some && s.close_calls == 1 && s.close_recorded is None
}

/// The end of a concluded session that holds nothing any more.
pub open spec fn spec_finish(s: SessionView) -> (SessionView, ActionView) {
    match s.outcome {
        Some(Ok(_)) => (SessionView { phase: Phase::Done, ..s }, ActionView::Finish),
        Some(Err(_)) => (SessionView { phase: Phase::Failed, ..s }, ActionView::Finish),
        None => (s, ActionView::Ignore),
    }
}

/// What a concluded session does once no close call is outstanding: it gives
/// back its slot if it holds one, and ends otherwise.
pub open spec fn spec_release(s: SessionView) -> (SessionView, ActionView) {
    if s.slot_held {
        (
            SessionView { phase: Phase::Cleanup, release_calls: s.release_calls + 1, ..s },
            ActionView::ReleaseSlot,
        )
    } else {
        spec_finish(s)
    }
}

/// The session concludes with `outcome`: it asks for its tab to be closed if
/// it has one, and goes on to release otherwise.
pub open spec fn spec_conclude(s: SessionView, outcome: Result<Seq<u8>, RenderError>) -> (
    SessionView,
    ActionView,
) {
    let concluded = SessionView { outcome: Some(outcome), ..s };
    match s.tab {
        Some(t) => (
            SessionView {
                phase: if outcome is Ok {
                    Phase::PrintAcked
                } else {
                    Phase::Cleanup
                },
                close_calls: s.close_calls + 1,
                ..concluded
            },
            ActionView::CloseTab(t.id),
        ),
        None => spec_release(concluded),
    }
}

/// The close call has come back, or was given up: its result is recorded and
/// the session goes on to release.
pub open spec fn spec_record_close(s: SessionView, ok: bool) -> (SessionView, ActionView) {
    spec_release(SessionView { close_recorded: Some(ok), ..s })
}

/// The transition function of the render workflow: the session after an
/// event, and what is to be done next.
pub open spec fn spec_step(s: SessionView, e: EventView) -> (SessionView, ActionView) {
    match s.phase {
        Phase::Idle => match e {
            EventView::SlotAcquired => (
                SessionView { slot_held: true, phase: Phase::TabCreating, ..s },
                ActionView::CreateTab,
            ),
            EventView::GateFailed => spec_conclude(s, Err(RenderError::ResourceError)),
            EventView::DeadlineExceeded => spec_conclude(s, Err(RenderError::TimeoutError)),
            _ => (s, ActionView::Ignore),
        },
        Phase::TabCreating => match e {
            EventView::TabResponse(body) => match spec_parse_tab(body) {
                Ok(t) => (
                    SessionView { tab: Some(t), phase: Phase::ChannelOpening, ..s },
                    ActionView::OpenChannel(t.channel_address),
                ),
                Err(err) => spec_conclude(s, Err(err)),
            },
            EventView::ControlPlaneFailed => spec_conclude(s, Err(RenderError::ConnectionError)),
            EventView::DeadlineExceeded => spec_conclude(s, Err(RenderError::TimeoutError)),
            _ => (s, ActionView::Ignore),
        },
        Phase::ChannelOpening => match e {
            EventView::ChannelOpened => match s.tab {
                Some(t) => (
                    SessionView { last_id: s.last_id + 1, phase: Phase::ContentSetting, ..s },
                    ActionView::Send(
                        spec_frame(
                            s.last_id + 1,
                            spec_set_content_method(),
                            spec_set_content_params(t.id, s.content),
                        ),
                    ),
                ),
                None => (s, ActionView::Ignore),
            },
            EventView::ChannelFailed => spec_conclude(s, Err(RenderError::TransportError)),
            EventView::DeadlineExceeded => spec_conclude(s, Err(RenderError::TimeoutError)),
            _ => (s, ActionView::Ignore),
        },
        Phase::ContentSetting => match e {
            EventView::Sent => (s, ActionView::Receive),
            EventView::SendFailed => spec_conclude(s, Err(RenderError::TransportError)),
            EventView::Frame(text) => if spec_answers(text, s.last_id) {
                (
                    SessionView { last_id: s.last_id + 1, phase: Phase::ContentAcked, ..s },
                    ActionView::Send(
                        spec_frame(
                            s.last_id + 1,
                            spec_print_method(),
                            spec_print_params(s.landscape),
                        ),
                    ),
                )
            } else {
                (s, ActionView::Receive)
            },
            EventView::ChannelClosed => spec_conclude(s, Err(RenderError::ProtocolError)),
            EventView::DeadlineExceeded => spec_conclude(s, Err(RenderError::TimeoutError)),
            _ => (s, ActionView::Ignore),
        },
        Phase::ContentAcked => match e {
            EventView::Sent => (SessionView { phase: Phase::Printing, ..s }, ActionView::Receive),
            EventView::SendFailed => spec_conclude(s, Err(RenderError::TransportError)),
            EventView::ChannelClosed => spec_conclude(s, Err(RenderError::ProtocolError)),
            EventView::DeadlineExceeded => spec_conclude(s, Err(RenderError::TimeoutError)),
            _ => (s, ActionView::Ignore),
        },
        Phase::Printing => match e {
            EventView::Frame(text) => if spec_answers(text, s.last_id) {
                spec_conclude(s, spec_document(spec_payload(text)))
            } else {
                (s, ActionView::Receive)
            },
            EventView::ChannelClosed => spec_conclude(s, Err(RenderError::ProtocolError)),
            EventView::DeadlineExceeded => spec_conclude(s, Err(RenderError::TimeoutError)),
            _ => (s, ActionView::Ignore),
        },
        Phase::PrintAcked | Phase::Cleanup => match e {
            EventView::TabClosed(ok) => if spec_close_pending(s) {
                spec_record_close(s, ok)
            } else {
                (s, ActionView::Ignore)
            },
            EventView::DeadlineExceeded => if spec_close_pending(s) {
                spec_record_close(s, false)
            } else {
                (s, ActionView::Ignore)
            },
            EventView::SlotReleased => if !spec_close_pending(s) && s.slot_held {
                spec_finish(SessionView { slot_held: false, ..s })
            } else {
                (s, ActionView::Ignore)
            },
            _ => (s, ActionView::Ignore),
        },
        Phase::Done | Phase::Failed => (s, ActionView::Ignore),
    }
}

/// The session after a sequence of events.
pub open spec fn spec_run(s: SessionView, events: Seq<EventView>) -> SessionView
    decreases events.len(),
{
    if events.len() == 0 {
        s
    } else {
        spec_step(spec_run(s, events.drop_last()), events.last()).0
    }
}

/// The actions that a sequence of events draws from a session, one for each.
pub open spec fn spec_trace(s: SessionView, events: Seq<EventView>) -> Seq<ActionView>
    decreases events.len(),
{
    if events.len() == 0 {
        Seq::empty()
    } else {
        spec_trace(s, events.drop_last()).push(
            spec_step(spec_run(s, events.drop_last()), events.last()).1,
        )
    }
}

pub open spec fn spec_events(events: Seq<Event>) -> Seq<EventView> {
    events.map_values(|e: Event| e@)
}

pub open spec fn spec_actions(actions: Seq<Action>) -> Seq<ActionView> {
    actions.map_values(|a: Action| a@)
}

/// What holds of a session in each phase.
pub open spec fn spec_wf(s: SessionView) -> bool {
    let working = s.outcome is None && s.close_calls == 0 && s.close_recorded is None
        && s.release_calls == 0;
    let closes = if s.tab is Some {
        1nat
    } else {
        0nat
    };
    match s.phase {
        Phase::Idle => working && s.tab is None && !s.slot_held && s.last_id == 0,
        Phase::TabCreating => working && s.tab is None && s.slot_held && s.last_id == 0,
        Phase::ChannelOpening => working && s.tab is Some && s.slot_held && s.last_id == 0,
        Phase::ContentSetting => working && s.tab is Some && s.slot_held && s.last_id == 1,
        Phase::ContentAcked => working && s.tab is Some && s.slot_held && s.last_id == 2,
        Phase::Printing => working && s.tab is Some && s.slot_held && s.last_id == 2,
        Phase::PrintAcked => s.outcome matches Some(Ok(_)) && s.tab is Some && s.slot_held
            && s.last_id == 2 && s.close_calls == 1 && s.close_recorded is None && s.release_calls
            == 0,
        Phase::Cleanup => s.release_calls == (if spec_close_pending(s) {
            0nat
        } else {
            1nat
        }) && s.outcome is Some && s.slot_held && s.last_id <= 2 && s.close_calls
            == closes && (s.tab is None ==> s.close_recorded is None) && (s.outcome matches Some(
            Ok(_),
        ) ==> s.tab is Some && s.last_id == 2),
        Phase::Done => s.outcome matches Some(Ok(_)) && s.tab is Some && !s.slot_held && s.last_id
            == 2 && s.close_calls == 1 && s.close_recorded is Some && s.release_calls == 1,
        Phase::Failed => s.outcome matches Some(Err(_)) && s.release_calls <= 1 && (s.tab is Some
            ==> s.release_calls == 1) && !s.slot_held && s.last_id <= 2
            && s.close_calls == closes && (s.tab is Some <==> s.close_recorded is Some),
    }
}

/// One render: the request, the tab and channel it owns, and how far it has come.
#[derive(Debug)]
pub struct Session {
    content: String,
    landscape: bool,
    phase: Phase,
    tab: Option<Tab>,
    channel: CommandChannel,
    slot_held: bool,
    close_calls: u8,
    close_recorded: Option<bool>,
    release_calls: u8,
    outcome: Option<Result<Vec<u8>, RenderError>>,
}

impl View for Session {
    type V = SessionView;

    closed spec fn view(&self) -> SessionView {
        SessionView {
            content: self.content@,
            landscape: self.landscape,
            phase: self.phase,
            tab: match self.tab {
                Some(t) => Some(t@),
                None => None,
            },
            last_id: self.channel.last_id(),
            slot_held: self.slot_held,
            close_calls: self.close_calls as nat,
            close_recorded: self.close_recorded,
            release_calls: self.release_calls as nat,
            outcome: outcome_view(self.outcome),
        }
    }
}

impl Session {
    /// Whether the session is in a state that `new` and `step` can lead to.
    pub open spec fn wf(&self) -> bool {
        spec_wf(self@)
    }

    /// A session for `request`, waiting for a slot.
    pub fn new(request: RenderRequest) -> (s: Session)
        ensures
            s.wf(),
            s@ == spec_new(request.content@, request.landscape),
    {
        Session {
            content: request.content,
            landscape: request.landscape,
            phase: Phase::Idle,
            tab: None,
            channel: CommandChannel::new(),
            slot_held: false,
            close_calls: 0,
            close_recorded: None,
            release_calls: 0,
            outcome: None,
        }
    }

    /// Tests whether the session is well-formed.
    pub fn check(&self) -> (r: bool)
        ensures
            r == self.wf(),
    {
        let working = self.outcome.is_none() && self.close_calls == 0
            && self.close_recorded.is_none() && self.release_calls == 0;
        let releases: u8 = if self.close_pending() {
            0
        } else {
            1
        };
        let closes: u8 = if self.tab.is_some() {
            1
        } else {
            0
        };
        let id = self.channel.last_sent();
        let document = match &self.outcome {
            Some(Ok(_)) => true,
            _ => false,
        };
        match self.phase {
            Phase::Idle => working && self.tab.is_none() && !self.slot_held && id == 0,
            Phase::TabCreating => working && self.tab.is_none() && self.slot_held && id == 0,
            Phase::ChannelOpening => working && self.tab.is_some() && self.slot_held && id == 0,
            Phase::ContentSetting => working && self.tab.is_some() && self.slot_held && id == 1,
            Phase::ContentAcked => working && self.tab.is_some() && self.slot_held && id == 2,
            Phase::Printing => working && self.tab.is_some() && self.slot_held && id == 2,
            Phase::PrintAcked => document && self.tab.is_some() && self.slot_held && id == 2
                && self.close_calls == 1 && self.close_recorded.is_none() && self.release_calls
                == 0,
            Phase::Cleanup => self.release_calls == releases && self.outcome.is_some() && self.slot_held && id <= 2
                && self.close_calls == closes && (self.tab.is_some()
                || self.close_recorded.is_none()) && (!document || (self.tab.is_some() && id
                == 2)),
            Phase::Done => document && self.tab.is_some() && !self.slot_held && id == 2
                && self.close_calls == 1 && self.close_recorded.is_some() && self.release_calls
                == 1,
            Phase::Failed => self.release_calls <= 1 && (self.tab.is_none() || self.release_calls
                == 1) && self.outcome.is_some() && !document && !self.slot_held && id <= 2
                && self.close_calls == closes && (self.tab.is_some()
                == self.close_recorded.is_some()),
        }
    }

    pub fn phase(&self) -> (r: Phase)
        ensures
            r == self@.phase,
    {
        self.phase
    }

    /// Whether the session has ended.
    pub fn is_terminal(&self) -> (r: bool)
        ensures
            r == spec_terminal(self@),
    {
        match self.phase {
            Phase::Done => true,
            Phase::Failed => true,
            _ => false,
        }
    }

    /// Whether the session holds a slot.
    pub fn holds_slot(&self) -> (r: bool)
        ensures
            r == self@.slot_held,
    {
        self.slot_held
    }

    /// How many times the session asked for its tab to be closed.
    pub fn close_calls(&self) -> (r: u8)
        ensures
            r == self@.close_calls,
    {
        self.close_calls
    }

    /// How many times the session asked for its slot to be released.
    pub fn release_calls(&self) -> (r: u8)
        ensures
            r == self@.release_calls,
    {
        self.release_calls
    }

    /// How the close call ended, once it has.
    pub fn close_recorded(&self) -> (r: Option<bool>)
        ensures
            r == self@.close_recorded,
    {
        self.close_recorded
    }

    /// The id of the command sent last, 0 before the first.
    pub fn last_command_id(&self) -> (r: u64)
        ensures
            r == self@.last_id,
    {
        self.channel.last_sent()
    }

    /// The error of a session that has concluded with one.
    pub fn error(&self) -> (r: Option<RenderError>)
        ensures
            r == match self@.outcome {
                Some(Err(e)) => Some(e),
                _ => None,
            },
    {
        match &self.outcome {
            Some(Err(e)) => Some(*e),
            _ => None,
        }
    }

    /// Gives up the session for its outcome: the document or the error, once
    /// it has concluded.
    pub fn into_outcome(self) -> (r: Option<Result<Vec<u8>, RenderError>>)
        ensures
            outcome_view(r) == self@.outcome,
    {
        self.outcome
    }

    fn finish(&mut self) -> (action: Action)
        ensures
            final(self)@ == spec_finish(old(self)@).0,
            action@ == spec_finish(old(self)@).1,
    {
        match &self.outcome {
            Some(Ok(_)) => {
                self.phase = Phase::Done;
                Action::Finish
            },
            Some(Err(_)) => {
                self.phase = Phase::Failed;
                Action::Finish
            },
            None => Action::Ignore,
        }
    }

    fn release(&mut self) -> (action: Action)
        requires
            old(self)@.release_calls == 0,
        ensures
            final(self)@ == spec_release(old(self)@).0,
            action@ == spec_release(old(self)@).1,
    {
        if self.slot_held {
            self.phase = Phase::Cleanup;
            self.release_calls = 1;
            Action::ReleaseSlot
        } else {
            self.finish()
        }
    }

    fn conclude(&mut self, outcome: Result<Vec<u8>, RenderError>) -> (action: Action)
        requires
            old(self)@.close_calls == 0,
            old(self)@.release_calls == 0,
        ensures
            final(self)@ == spec_conclude(old(self)@, result_view(outcome)).0,
            action@ == spec_conclude(old(self)@, result_view(outcome)).1,
    {
        let closing = match &outcome {
            Ok(_) => Phase::PrintAcked,
            Err(_) => Phase::Cleanup,
        };
        self.outcome = Some(outcome);
        let id = match &self.tab {
            Some(t) => Some(t.id.clone()),
            None => None,
        };
        match id {
            Some(id) => {
                self.phase = closing;
                self.close_calls = 1;
                Action::CloseTab(id)
            },
            None => self.release(),
        }
    }

    fn record_close(&mut self, ok: bool) -> (action: Action)
        requires
            old(self)@.release_calls == 0,
        ensures
            final(self)@ == spec_record_close(old(self)@, ok).0,
            action@ == spec_record_close(old(self)@, ok).1,
    {
        self.close_recorded = Some(ok);
        self.release()
    }

    fn close_pending(&self) -> (r: bool)
        ensures
            r == spec_close_pending(self@),
    {
        self.tab.is_some() && self.close_calls == 1 && self.close_recorded.is_none()
    }

    /// Takes one event and says what to do next.
    pub fn step(&mut self, event: &Event) -> (action: Action)
        requires
            old(self).wf(),
        ensures
            final(self).wf(),
            final(self)@ == spec_step(old(self)@, event@).0,
            action@ == spec_step(old(self)@, event@).1,
    {
        proof {
            lemma_step_keeps_wf(self@, event@);
        }
        match self.phase {
            Phase::Idle => match event {
                Event::SlotAcquired => {
                    self.slot_held = true;
                    self.phase = Phase::TabCreating;
                    Action::CreateTab
                },
                Event::GateFailed => self.conclude(Err(RenderError::ResourceError)),
                Event::DeadlineExceeded => self.conclude(Err(RenderError::TimeoutError)),
                _ => Action::Ignore,
            },
            Phase::TabCreating => match event {
                Event::TabResponse(body) => match parse_tab(body.as_str()) {
                    Ok(tab) => {
                        let address = tab.channel_address.clone();
                        self.tab = Some(tab);
                        self.phase = Phase::ChannelOpening;
                        Action::OpenChannel(address)
                    },
                    Err(err) => self.conclude(Err(err)),
                },
                Event::ControlPlaneFailed => self.conclude(Err(RenderError::ConnectionError)),
                Event::DeadlineExceeded => self.conclude(Err(RenderError::TimeoutError)),
                _ => Action::Ignore,
            },
            Phase::ChannelOpening => match event {
                Event::ChannelOpened => {
                    let params = match &self.tab {
                        Some(t) => Some(set_content_params(t.id.as_str(), self.content.as_str())),
                        None => None,
                    };
                    match params {
                        Some(params) => {
                            let sent = self.channel.send("Page.setDocumentContent", params.as_str());
                            self.phase = Phase::ContentSetting;
                            Action::Send(sent.1)
                        },
                        None => Action::Ignore,
                    }
                },
                Event::ChannelFailed => self.conclude(Err(RenderError::TransportError)),
                Event::DeadlineExceeded => self.conclude(Err(RenderError::TimeoutError)),
                _ => Action::Ignore,
            },
            Phase::ContentSetting => match event {
                Event::Sent => Action::Receive,
                Event::SendFailed => self.conclude(Err(RenderError::TransportError)),
                Event::Frame(text) => {
                    if answers(text.as_str(), self.channel.last_sent()) {
                        let params = print_params(self.landscape);
                        let sent = self.channel.send("Page.printToPDF", params.as_str());
                        self.phase = Phase::ContentAcked;
                        Action::Send(sent.1)
                    } else {
                        Action::Receive
                    }
                },
                Event::ChannelClosed => self.conclude(Err(RenderError::ProtocolError)),
                Event::DeadlineExceeded => self.conclude(Err(RenderError::TimeoutError)),
                _ => Action::Ignore,
            },
            Phase::ContentAcked => match event {
                Event::Sent => {
                    self.phase = Phase::Printing;
                    Action::Receive
                },
                Event::SendFailed => self.conclude(Err(RenderError::TransportError)),
                Event::ChannelClosed => self.conclude(Err(RenderError::ProtocolError)),
                Event::DeadlineExceeded => self.conclude(Err(RenderError::TimeoutError)),
                _ => Action::Ignore,
            },
            Phase::Printing => match event {
                Event::Frame(text) => {
                    if answers(text.as_str(), self.channel.last_sent()) {
                        let data = payload(text.as_str());
                        let outcome = match &data {
                            Some(p) => document(Some(p.as_str())),
                            None => document(None),
                        };
                        self.conclude(outcome)
                    } else {
                        Action::Receive
                    }
                },
                Event::ChannelClosed => self.conclude(Err(RenderError::ProtocolError)),
                Event::DeadlineExceeded => self.conclude(Err(RenderError::TimeoutError)),
                _ => Action::Ignore,
            },
            Phase::PrintAcked | Phase::Cleanup => match event {
                Event::TabClosed(ok) => {
                    if self.close_pending() {
                        self.record_close(*ok)
                    } else {
                        Action::Ignore
                    }
                },
                Event::DeadlineExceeded => {
                    if self.close_pending() {
                        self.record_close(false)
                    } else {
                        Action::Ignore
                    }
                },
                Event::SlotReleased => {
                    if !self.close_pending() && self.slot_held {
                        self.slot_held = false;
                        self.finish()
                    } else {
                        Action::Ignore
                    }
                },
                _ => Action::Ignore,
            },
            Phase::Done | Phase::Failed => Action::Ignore,
        }
    }
}

impl Session {
    /// Takes a sequence of events in order and returns the action that each
    /// one drew.
    pub fn run(&mut self, events: &Vec<Event>) -> (actions: Vec<Action>)
        requires
            old(self).wf(),
        ensures
            final(self).wf(),
            final(self)@ == spec_run(old(self)@, spec_events(events@)),
            spec_actions(actions@) == spec_trace(old(self)@, spec_events(events@)),
    {
        let ghost start = self@;
        let ghost all = spec_events(events@);
        let mut actions: Vec<Action> = Vec::new();
        let mut i: usize = 0;
        while i < events.len()
            invariant
                i <= events@.len(),
                all == spec_events(events@),
                self.wf(),
                self@ == spec_run(start, all.take(i as int)),
                spec_actions(actions@) =~= spec_trace(start, all.take(i as int)),
            decreases events@.len() - i,
        {
            let ghost before = actions@;
            let action = self.step(&events[i]);
            actions.push(action);
            proof {
                let next = all.take(i + 1);
                assert(next.drop_last() =~= all.take(i as int));
                assert(next.last() == events@[i as int]@);
                assert(spec_actions(actions@) =~= spec_actions(before).push(action@));
            }
            i = i + 1;
        }
        proof {
            assert(all.take(events@.len() as int) =~= all);
        }
        actions
    }
}

/// A step leads from a well-formed session to a well-formed one.
pub proof fn lemma_step_keeps_wf(s: SessionView, e: EventView)
    requires
        spec_wf(s),
    ensures
        spec_wf(spec_step(s, e).0),
{
}

} // verus!
