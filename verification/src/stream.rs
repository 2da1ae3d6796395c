//! One viewer's stream: each frame is sent on as it comes, and once a second the viewer is
//! told how many frames there were.
//!
//! The session decides; its driver receives and sends. The rate itself is the number of
//! frames that a report carries over the time since the report's window began.
use vstd::prelude::*;

use crate::clock;
use crate::frame::JpegFrame;

verus! {

/// How many frames are kept for a viewer that lags behind.
pub const CHANNEL_CAPACITY: usize = 8;

/// Where a session stands.
#[derive(Debug)]
pub enum SessionPhase {
    /// A frame or a message of the viewer is being waited for.
    Waiting,
    /// The report is being sent that precedes this frame.
    SendingStats { frame: JpegFrame },
    /// A frame is being sent.
    SendingFrame,
    /// The session is over.
    Closed,
}

/// What the driver has seen.
#[derive(Debug)]
pub enum SessionEvent {
    /// This frame came; the clock is read then.
    Frame { frame: JpegFrame, now: u128 },
    /// Frames were lost because the viewer lags behind.
    Lagged,
    /// No more frames will come.
    ChannelClosed,
    /// The viewer sent a closing message, or its messages are at an end.
    ViewerClosed,
    /// Anything else came from the viewer, a faulty message too.
    ViewerMessage,
    /// The report was sent; the clock is read after that.
    StatsSent { now: u128 },
    /// The frame was sent.
    FrameSent,
    /// The report or the frame could not be sent.
    SendFailed,
}

/// What the driver does next.
#[derive(Debug)]
pub enum SessionAction {
    /// Wait for a frame or a message of the viewer.
    Receive,
    /// Report how many frames came since the reading `since`, and the number of the last.
    SendStats { frames: u32, since: u128, seq: u64 },
    /// Send this frame.
    SendFrame { frame: JpegFrame },
    /// End the session.
    Close,
}

/// The state of a session.
#[derive(Debug)]
pub struct SessionState {
    pub phase: SessionPhase,
    /// The number of frames in the current window.
    pub frames_in_window: u32,
    /// When the current window began.
    pub window_start: u128,
}

/// The session of a viewer.
#[derive(Debug)]
pub struct Session {
    state: SessionState,
}

impl View for Session {
    type V = SessionState;

    closed spec fn view(&self) -> SessionState {
        self.state
    }
}

impl SessionState {
    /// A session at its start.
    pub open spec fn opened(now: u128) -> SessionState {
        SessionState { phase: SessionPhase::Waiting, frames_in_window: 0, window_start: now }
    }

    /// The session in another phase.
    pub open spec fn in_phase(self, phase: SessionPhase) -> SessionState {
        SessionState { phase, ..self }
    }

    /// Whether the event can happen in the session's phase. One more frame has to fit in
    /// the count.
    pub open spec fn expects(self, event: SessionEvent) -> bool {
        match self.phase {
            SessionPhase::Waiting => match event {
                SessionEvent::Frame { .. } => self.frames_in_window < u32::MAX,
                SessionEvent::Lagged | SessionEvent::ChannelClosed => true,
                SessionEvent::ViewerClosed | SessionEvent::ViewerMessage => true,
                _ => false,
            },
            SessionPhase::SendingStats { .. } => event is StatsSent || event is SendFailed,
            SessionPhase::SendingFrame => event is FrameSent || event is SendFailed,
            SessionPhase::Closed => false,
        }
    }

    /// What an event makes of the session, and what is to be done.
    pub open spec fn after(self, event: SessionEvent) -> (SessionState, SessionAction) {
        match event {
            SessionEvent::Frame { frame, now } => {
                let counted = SessionState {
                    frames_in_window: (self.frames_in_window + 1) as u32,
                    ..self
                };
                if clock::passed(self.window_start, now) >= clock::SECOND {
                    (
                        counted.in_phase(SessionPhase::SendingStats { frame }),
                        SessionAction::SendStats {
                            frames: counted.frames_in_window,
                            since: self.window_start,
                            seq: frame.seq,
                        },
                    )
                } else {
                    (
                        counted.in_phase(SessionPhase::SendingFrame),
                        SessionAction::SendFrame { frame },
                    )
                }
            },
            SessionEvent::StatsSent { now } => (
                SessionState {
                    phase: SessionPhase::SendingFrame,
                    frames_in_window: 0,
                    window_start: now,
                },
                SessionAction::SendFrame { frame: self.phase->frame },
            ),
            SessionEvent::FrameSent => (
                self.in_phase(SessionPhase::Waiting),
                SessionAction::Receive,
            ),
            SessionEvent::Lagged | SessionEvent::ViewerMessage => (self, SessionAction::Receive),
            SessionEvent::ChannelClosed | SessionEvent::ViewerClosed | SessionEvent::SendFailed => (
                self.in_phase(SessionPhase::Closed),
                SessionAction::Close,
            ),
        }
    }

    /// What a sequence of events makes of the session.
    pub open spec fn run(self, events: Seq<SessionEvent>) -> SessionState
        decreases events.len(),
    {
        if events.len() == 0 {
            self
        } else {
            self.run(events.drop_last()).after(events.last()).0
        }
    }

    /// Whether each event of a sequence is one that the session expects.
    pub open spec fn allows(self, events: Seq<SessionEvent>) -> bool
        decreases events.len(),
    {
        events.len() > 0 ==> {
            &&& self.allows(events.drop_last())
            &&& self.run(events.drop_last()).expects(events.last())
        }
    }
}

impl Session {
    /// A session at its start. Its first action is `SessionAction::Receive`.
    pub fn open(now: u128) -> (r: Self)
        ensures
            r@ == SessionState::opened(now),
    {
        Session {
            state: SessionState {
                phase: SessionPhase::Waiting,
                frames_in_window: 0,
                window_start: now,
            },
        }
    }

    /// Where the session stands.
    pub fn state(&self) -> (r: &SessionState)
        ensures
            *r == self@,
    {
        &self.state
    }

    /// Takes an event in, and says what to do next.
    pub fn step(&mut self, event: SessionEvent) -> (r: SessionAction)
        requires
            old(self)@.expects(event),
        ensures
            (final(self)@, r) == old(self)@.after(event),
    {
        match event {
            SessionEvent::Frame { frame, now } => {
                self.state.frames_in_window = self.state.frames_in_window + 1;
                if clock::elapsed(self.state.window_start, now) >= clock::SECOND {
                    let seq: u64 = frame.seq;
                    self.state.phase = SessionPhase::SendingStats { frame };
                    SessionAction::SendStats {
                        frames: self.state.frames_in_window,
                        since: self.state.window_start,
                        seq,
                    }
                } else {
                    self.state.phase = SessionPhase::SendingFrame;
                    SessionAction::SendFrame { frame }
                }
            },
            SessionEvent::StatsSent { now } => {
                self.state.frames_in_window = 0;
                self.state.window_start = now;
                let mut phase: SessionPhase = SessionPhase::SendingFrame;
                std::mem::swap(&mut self.state.phase, &mut phase);
                match phase {
                    SessionPhase::SendingStats { frame } => SessionAction::SendFrame { frame },
                    _ => vstd::pervasive::unreached(),
                }
            },
            SessionEvent::FrameSent => {
                self.state.phase = SessionPhase::Waiting;
                SessionAction::Receive
            },
            SessionEvent::Lagged => SessionAction::Receive,
            SessionEvent::ViewerMessage => SessionAction::Receive,
            SessionEvent::ChannelClosed => self.close(),
            SessionEvent::ViewerClosed => self.close(),
            SessionEvent::SendFailed => self.close(),
        }
    }

    fn close(&mut self) -> (r: SessionAction)
        ensures
            final(self)@ == old(self)@.in_phase(SessionPhase::Closed),
            r is Close,
    {
        self.state.phase = SessionPhase::Closed;
        SessionAction::Close
    }
}

/// How many frames came since the last report was sent.
pub open spec fn frames_since_report(events: Seq<SessionEvent>) -> nat
    decreases events.len(),
{
    if events.len() == 0 {
        0
    } else {
        match events.last() {
            SessionEvent::StatsSent { .. } => 0,
            SessionEvent::Frame { .. } => frames_since_report(events.drop_last()) + 1,
            _ => frames_since_report(events.drop_last()),
        }
    }
}

/// When the last report was sent, or the session was opened if there was none.
pub open spec fn last_report(opened: u128, events: Seq<SessionEvent>) -> u128
    decreases events.len(),
{
    if events.len() == 0 {
        opened
    } else {
        match events.last() {
            SessionEvent::StatsSent { now } => now,
            _ => last_report(opened, events.drop_last()),
        }
    }
}

/// A report comes at the earliest one second after the last, and it counts every frame that
/// came since then, the one that has just come among them.
pub proof fn reports_count_the_frames(
    opened: u128,
    events: Seq<SessionEvent>,
    frame: JpegFrame,
    now: u128,
    frames: u32,
    since: u128,
    reported: u64,
)
    requires
        SessionState::opened(opened).allows(events),
        SessionState::opened(opened).run(events).expects(SessionEvent::Frame { frame, now }),
        SessionState::opened(opened).run(events).after(SessionEvent::Frame { frame, now }).1 == (
        SessionAction::SendStats { frames, since, seq: reported }),
    ensures
        frames == frames_since_report(events) + 1,
        since == last_report(opened, events),
        clock::passed(since, now) >= clock::SECOND,
        reported == frame.seq,
{
    lemma_window(opened, events);
}

/// The window of a session is what came since the last report.
proof fn lemma_window(opened: u128, events: Seq<SessionEvent>)
    requires
        SessionState::opened(opened).allows(events),
    ensures
        SessionState::opened(opened).run(events).frames_in_window == frames_since_report(events),
        SessionState::opened(opened).run(events).window_start == last_report(opened, events),
    decreases events.len(),
{
    if events.len() > 0 {
        lemma_window(opened, events.drop_last());
    }
}

/// The session always stands where it waits for what it has asked for, so that whatever
/// comes of an action is an event that it expects, as long as the frames can be counted.
pub proof fn actions_are_waited_for(s: SessionState, event: SessionEvent)
    requires
        s.expects(event),
    ensures
        match s.after(event).1 {
            SessionAction::Receive => s.after(event).0.phase is Waiting,
            SessionAction::SendStats { .. } => s.after(event).0.phase is SendingStats,
            SessionAction::SendFrame { .. } => s.after(event).0.phase is SendingFrame,
            SessionAction::Close => s.after(event).0.phase is Closed,
        },
{
}

/// Every frame that comes is sent, at once or right after the report that is due; only a
/// failure to send comes between.
pub proof fn every_frame_is_sent(s: SessionState, frame: JpegFrame, now: u128, sent: u128)
    requires
        s.expects(SessionEvent::Frame { frame, now }),
    ensures
        ({
            let (counted, action) = s.after(SessionEvent::Frame { frame, now });
            let (reported, then) = counted.after(SessionEvent::StatsSent { now: sent });
            ||| action == (SessionAction::SendFrame { frame }) && counted.phase is SendingFrame
            ||| {
                &&& action is SendStats
                &&& forall|e: SessionEvent|
                    counted.expects(e) ==> e is StatsSent || e is SendFailed
                &&& then == (SessionAction::SendFrame { frame })
                &&& reported.phase is SendingFrame
            }
        }),
{
}

/// The frames that came in the course of some events, in order.
pub open spec fn came(events: Seq<SessionEvent>) -> Seq<JpegFrame>
    decreases events.len(),
{
    if events.len() == 0 {
        Seq::empty()
    } else {
        match events.last() {
            SessionEvent::Frame { frame, .. } => came(events.drop_last()).push(frame),
            _ => came(events.drop_last()),
        }
    }
}

impl SessionState {
    /// The frame that the session has asked to send last in the course of some events.
    pub open spec fn asked(self, events: Seq<SessionEvent>) -> Option<JpegFrame>
        decreases events.len(),
    {
        if events.len() == 0 {
            None
        } else {
            match self.run(events.drop_last()).after(events.last()).1 {
                SessionAction::SendFrame { frame } => Some(frame),
                _ => self.asked(events.drop_last()),
            }
        }
    }

    /// The frames that were sent in the course of some events, in order: at each
    /// `SessionEvent::FrameSent`, the one that the session has asked to send.
    pub open spec fn went(self, events: Seq<SessionEvent>) -> Seq<JpegFrame>
        decreases events.len(),
    {
        if events.len() == 0 {
            Seq::empty()
        } else if events.last() is FrameSent {
            self.went(events.drop_last()).push(self.asked(events.drop_last())->0)
        } else {
            self.went(events.drop_last())
        }
    }
}

/// A viewer gets the frames as they come: whenever an open session waits, the frames that were
/// sent are those that came, each once and in order, so that their images are too. While one
/// is being sent, and once the session is over, at most the last is missing.
pub proof fn frames_are_sent_in_order(opened: u128, events: Seq<SessionEvent>)
    requires
        SessionState::opened(opened).allows(events),
    ensures
        ({
            let sent = SessionState::opened(opened).went(events);
            match SessionState::opened(opened).run(events).phase {
                SessionPhase::Waiting => sent == came(events),
                SessionPhase::SendingStats { frame } => sent.push(frame) == came(events),
                SessionPhase::SendingFrame => SessionState::opened(opened).asked(events) matches Some(
                    frame,
                ) && sent.push(frame) == came(events),
                SessionPhase::Closed => sent == came(events) || (came(events).len() > 0 && sent
                    == came(events).drop_last()),
            }
        }),
    decreases events.len(),
{
    if events.len() > 0 {
        frames_are_sent_in_order(opened, events.drop_last());
        let s = SessionState::opened(opened);
        let before = s.went(events.drop_last());
        match s.run(events.drop_last()).phase {
            SessionPhase::SendingStats { frame } => {
                assert(before.push(frame).drop_last() =~= before);
            },
            SessionPhase::SendingFrame => {
                let frame = s.asked(events.drop_last())->0;
                assert(before.push(frame).drop_last() =~= before);
            },
            _ => {},
        }
    }
}

/// A viewer that lags behind loses frames but stays connected, as does one that sends
/// messages.
pub proof fn lagging_viewer_stays(s: SessionState, event: SessionEvent)
    requires
        s.expects(event),
        event is Lagged || event is ViewerMessage,
    ensures
        s.after(event) == (s, SessionAction::Receive),
{
}

/// A session ends when the viewer leaves, when no more frames will come or when nothing can
/// be sent, and at no other time.
pub proof fn session_ends_only_then(s: SessionState, event: SessionEvent)
    requires
        s.expects(event),
    ensures
        s.after(event).1 is Close <==> event is ViewerClosed || event is ChannelClosed
            || event is SendFailed,
        s.after(event).0.phase is Closed <==> s.after(event).1 is Close,
{
}

/// A report comes exactly when it is due: a frame that comes a second or more after the last
/// report was sent, or after the session was opened if there was none, is preceded by one, and
/// no other frame is. `k` is the place of that last report among the events, or -1; the report
/// carries how many frames came after it, the new one among them, and the number of that one.
pub proof fn report_comes_each_second(
    opened: u128,
    events: Seq<SessionEvent>,
    k: int,
    since: u128,
    frame: JpegFrame,
    now: u128,
)
    requires
        SessionState::opened(opened).allows(events),
        SessionState::opened(opened).run(events).expects(SessionEvent::Frame { frame, now }),
        -1 <= k < events.len(),
        k == -1 ==> since == opened,
        k >= 0 ==> events[k] == (SessionEvent::StatsSent { now: since }),
        forall|j: int| k < j < events.len() ==> !(#[trigger] events[j] is StatsSent),
    ensures
        ({
            let action = SessionState::opened(opened).run(events).after(
                SessionEvent::Frame { frame, now },
            ).1;
            let came = events.skip(k + 1).filter(|e: SessionEvent| e is Frame);
            if now - since >= 1_000_000_000 {
                action matches SessionAction::SendStats { frames, since: start, seq } && frames
                    == came.len() + 1 && start == since && seq == frame.seq
            } else {
                action == (SessionAction::SendFrame { frame })
            }
        }),
{
    lemma_window(opened, events);
    lemma_since_report(opened, events, k, since);
}

/// What came since the last report, which stands at `k` among the events, or -1.
proof fn lemma_since_report(opened: u128, events: Seq<SessionEvent>, k: int, since: u128)
    requires
        -1 <= k < events.len(),
        k == -1 ==> since == opened,
        k >= 0 ==> events[k] == (SessionEvent::StatsSent { now: since }),
        forall|j: int| k < j < events.len() ==> !(#[trigger] events[j] is StatsSent),
    ensures
        last_report(opened, events) == since,
        frames_since_report(events) == events.skip(k + 1).filter(
            |e: SessionEvent| e is Frame,
        ).len(),
    decreases events.len(),
{
    reveal(Seq::filter);
    let is_frame = |e: SessionEvent| e is Frame;
    let tail = events.skip(k + 1);
    if k == events.len() - 1 {
        assert(tail =~= Seq::empty());
        assert(tail.filter(is_frame).len() == 0);
    } else {
        let before = events.drop_last();
        assert forall|j: int| k < j < before.len() implies !(#[trigger] before[j]
            is StatsSent) by {
            assert(before[j] == events[j]);
        }
        assert(!(events[events.len() - 1] is StatsSent));
        lemma_since_report(opened, before, k, since);
        assert(tail.drop_last() =~= before.skip(k + 1));
        assert(tail.last() == events.last());
    }
}

/// A session begins by waiting, with nothing counted, and while it waits it takes whatever
/// comes, as long as the frames can be counted.
pub proof fn session_begins_by_waiting(now: u128, s: Session, event: SessionEvent)
    requires
        call_ensures(Session::open, (now,), s),
    ensures
        s@.phase is Waiting,
        s@.frames_in_window == 0,
        s@.window_start == now,
        s@ == SessionState::opened(now),
        event is Frame || event is Lagged || event is ChannelClosed || event is ViewerClosed
            || event is ViewerMessage ==> s@.expects(event),
{
}

/// What a session does with an event: a frame is counted, and sent or kept until the report on
/// it was sent; a report that was sent begins a new count; a frame that was sent ends in
/// waiting; a viewer that lags or talks changes nothing; and the rest closes the session.
pub proof fn session_takes_events_as_they_come(
    s: &mut Session,
    event: SessionEvent,
    action: SessionAction,
)
    requires
        old(s)@.expects(event),
        call_ensures(Session::step, (s, event), action),
    ensures
        (final(s)@, action) == old(s)@.after(event),
        event matches SessionEvent::Frame { frame, now } ==> {
            &&& final(s)@.frames_in_window == old(s)@.frames_in_window + 1
            &&& final(s)@.window_start == old(s)@.window_start
            &&& now - old(s)@.window_start >= 1_000_000_000 ==> final(s)@.phase == (
            SessionPhase::SendingStats { frame }) && action is SendStats
            &&& now - old(s)@.window_start < 1_000_000_000 ==> final(s)@.phase is SendingFrame
                && action == (SessionAction::SendFrame { frame })
        },
        event matches SessionEvent::StatsSent { now } ==> {
            &&& final(s)@.phase is SendingFrame
            &&& final(s)@.frames_in_window == 0
            &&& final(s)@.window_start == now
            &&& action == (SessionAction::SendFrame { frame: old(s)@.phase->frame })
        },
        !(event is Frame || event is StatsSent) ==> final(s)@.frames_in_window == old(
            s,
        )@.frames_in_window && final(s)@.window_start == old(s)@.window_start,
        event is FrameSent || event is Lagged || event is ViewerMessage ==> final(s)@.phase
            is Waiting && action is Receive,
        event is ChannelClosed || event is ViewerClosed || event is SendFailed ==> final(s)@.phase
            is Closed && action is Close,
{
}

/// No frame that came is left out of account.
pub proof fn every_frame_counts_as_having_come(events: Seq<SessionEvent>)
    ensures
        came(events) == events.filter_map(
            |e: SessionEvent|
                match e {
                    SessionEvent::Frame { frame, .. } => Some(frame),
                    _ => None,
                },
        ),
    decreases events.len(),
{
    reveal(Seq::filter_map);
    if events.len() > 0 {
        every_frame_counts_as_having_come(events.drop_last());
    }
}

} // verus!
