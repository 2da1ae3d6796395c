//! The camera manager: it connects, watches the stream, reconnects when no frame comes or
//! another camera is asked for, and retries when a connection fails.
//!
//! The manager decides; its driver acts. After each event the driver publishes the
//! manager's status, keeps the capture for as long as the manager holds it, and carries out
//! the action.
use vstd::prelude::*;

use crate::camera::{CameraStatus, CaptureRequest};
use crate::clock;

verus! {

/// How long to wait after a failed connection.
pub const RECONNECT_MILLIS: u64 = 3_000;

/// A stream has stalled when no frame has come for longer than this.
pub const STALL_MILLIS: u64 = 5_000;

/// How long a camera that was just opened may take to send its first frame, in nanoseconds.
pub const FIRST_FRAME_TIME: u128 = 5_000_000_000;

/// How long to wait between two looks at the time of the last frame.
pub const WATCH_MILLIS: u64 = 1_000;

/// The least time between two listings of the cameras, in nanoseconds.
pub const RELIST_INTERVAL: u128 = 15_000_000_000;

/// Where the manager stands.
#[derive(Clone, Copy, Debug, PartialEq, Eq, Structural)]
pub enum Phase {
    /// A connection is being made.
    Connecting,
    /// The stream runs; the time of the last frame is being looked up.
    Checking,
    /// The stream runs; a command is being waited for.
    Watching,
    /// The cameras are being listed, after a failed connection or after a stream.
    Listing { failed: bool },
    /// The last connection failed; the next is being waited for.
    Retrying,
    /// The manager has ended.
    Stopped,
}

/// What the driver has seen. Where the time matters, the event carries the reading `now` of
/// the clock.
#[derive(Clone, Copy, Debug, PartialEq, Eq, Structural)]
pub enum ManagerEvent {
    /// The camera was opened; the clock is read after that. `last` is the time of the last
    /// frame as it stood before the camera was opened, zero if none had ever come.
    Connected { last: i64, now: u128 },
    ConnectFailed { now: u128 },
    /// The time of the last frame, zero if none has ever come, and the wall clock, both in
    /// milliseconds. The last frame may be one of an earlier capture.
    FrameAge { last: i64, wall: i64, now: u128 },
    /// A wait was ended by the command to switch to another camera.
    Switch { index: u32, now: u128 },
    /// A wait ran out.
    TimedOut,
    /// A wait was ended because no command can come any more.
    ChannelClosed,
    /// The cameras were listed; the clock is read after that.
    Listed { now: u128 },
}

/// What the driver does next.
#[derive(Clone, Copy, Debug, PartialEq, Eq, Structural)]
pub enum ManagerAction {
    /// Open a camera.
    Connect { request: CaptureRequest },
    /// Look up the time of the last frame.
    CheckFrames,
    /// Wait for a command, at most this long.
    Wait { millis: u64 },
    /// List the cameras.
    ListCameras,
    /// End.
    Exit,
}

/// The state of a manager.
#[derive(Clone, Copy, Debug, PartialEq, Eq, Structural)]
pub struct ManagerState {
    pub phase: Phase,
    /// The status to publish.
    pub status: CameraStatus,
    /// The time of the last frame before a camera was opened last.
    pub last_at_open: i64,
    /// When a camera was opened last.
    pub opened_at: u128,
    /// When the cameras were listed last.
    pub last_listing: Option<u128>,
    /// The least time between two listings of the cameras, in nanoseconds.
    pub relist_interval: u128,
    /// The frame size and rate to ask of a camera.
    pub width: u32,
    pub height: u32,
    pub fps: u32,
}

/// The camera manager.
#[derive(Clone, Copy, Debug, PartialEq, Eq, Structural)]
pub struct CameraManager {
    state: ManagerState,
}

impl View for CameraManager {
    type V = ManagerState;

    closed spec fn view(&self) -> ManagerState {
        self.state
    }
}

/// Whether the cameras may be listed again: they never were, or `interval` has passed since.
pub open spec fn listing_due(last_listing: Option<u128>, interval: u128, now: u128) -> bool {
    match last_listing {
        None => true,
        Some(then) => clock::passed(then, now) >= interval,
    }
}

/// Whether the stream has stalled when the wall clock stands at `wall`: a frame has come, and
/// the last one lies further back than the stall time. A stream whose first frame is still to
/// come, so that the time of the last frame is the one from before the camera was opened, has
/// not until the time for the first frame is over.
pub open spec fn stalled(
    last: i64,
    wall: i64,
    last_at_open: i64,
    opened_at: u128,
    now: u128,
) -> bool {
    &&& last != 0
    &&& wall - last > STALL_MILLIS
    &&& last != last_at_open || clock::passed(opened_at, now) > FIRST_FRAME_TIME
}

/// Whether the stream has stalled. `last` is the time of the last frame, zero if there was
/// none, and `wall` the wall clock; `last_at_open` is what `last` was before the camera was
/// opened, and `opened_at` when it was.
pub fn is_stalled(last: i64, wall: i64, last_at_open: i64, opened_at: u128, now: u128) -> (r: bool)
    requires
        i64::MIN <= wall - last <= i64::MAX,
    ensures
        r == stalled(last, wall, last_at_open, opened_at, now),
{
    match clock::millis_since(last, wall) {
        None => false,
        Some(age) => age > STALL_MILLIS && (last != last_at_open || clock::elapsed(opened_at, now)
            > FIRST_FRAME_TIME),
    }
}

/// Whether the cameras may be listed again.
pub fn should_list(last_listing: Option<u128>, interval: u128, now: u128) -> (r: bool)
    ensures
        r == listing_due(last_listing, interval, now),
{
    match last_listing {
        None => true,
        Some(then) => clock::elapsed(then, now) >= interval,
    }
}

impl ManagerState {
    /// The manager at its start, when it is to connect.
    pub open spec fn started(
        width: u32,
        height: u32,
        fps: u32,
        relist_interval: u128,
    ) -> ManagerState {
        ManagerState {
            phase: Phase::Connecting,
            status: CameraStatus::Connecting,
            last_at_open: 0,
            opened_at: 0,
            last_listing: None,
            relist_interval,
            width,
            height,
            fps,
        }
    }

    /// The manager, about to connect.
    pub open spec fn connecting(self) -> ManagerState {
        ManagerState { phase: Phase::Connecting, status: CameraStatus::Connecting, ..self }
    }

    /// Connecting to the camera with this index.
    pub open spec fn connect_to(self, index: u32) -> ManagerAction {
        ManagerAction::Connect {
            request: CaptureRequest {
                camera_index: index,
                width: self.width,
                height: self.height,
                fps: self.fps,
            },
        }
    }

    /// The manager in another phase, with the same status.
    pub open spec fn in_phase(self, phase: Phase) -> ManagerState {
        ManagerState { phase, ..self }
    }

    /// Whether the event can happen in the manager's phase. The time between the last frame and
    /// the reading of the wall clock has to fit in 64 bits.
    pub open spec fn expects(self, event: ManagerEvent) -> bool {
        match self.phase {
            Phase::Connecting => event is Connected || event is ConnectFailed,
            Phase::Checking => event matches ManagerEvent::FrameAge { last, wall, .. } && i64::MIN
                <= wall - last <= i64::MAX,
            Phase::Watching | Phase::Retrying => event is Switch || event is TimedOut
                || event is ChannelClosed,
            Phase::Listing { .. } => event is Listed,
            Phase::Stopped => false,
        }
    }

    /// Whether the capture is to be kept.
    pub open spec fn holds(self) -> bool {
        self.phase is Checking || self.phase is Watching
    }

    /// Leaving a stream: the cameras are listed if that is due, then the manager connects.
    pub open spec fn leave_stream(self, now: u128, selected: u32) -> (ManagerState, ManagerAction) {
        if listing_due(self.last_listing, self.relist_interval, now) {
            (self.in_phase(Phase::Listing { failed: false }), ManagerAction::ListCameras)
        } else {
            (self.connecting(), self.connect_to(selected))
        }
    }

    /// What an event makes of the manager, and what is to be done, while the camera with
    /// index `selected` is the selected one.
    pub open spec fn after(self, event: ManagerEvent, selected: u32) -> (
        ManagerState,
        ManagerAction,
    ) {
        match event {
            ManagerEvent::Connected { last, now } => (
                ManagerState {
                    phase: Phase::Checking,
                    status: CameraStatus::Streaming,
                    last_at_open: last,
                    opened_at: now,
                    ..self
                },
                ManagerAction::CheckFrames,
            ),
            ManagerEvent::ConnectFailed { now } => {
                let failed = ManagerState { status: CameraStatus::Disconnected, ..self };
                if listing_due(self.last_listing, self.relist_interval, now) {
                    (failed.in_phase(Phase::Listing { failed: true }), ManagerAction::ListCameras)
                } else {
                    (
                        failed.in_phase(Phase::Retrying),
                        ManagerAction::Wait { millis: RECONNECT_MILLIS },
                    )
                }
            },
            ManagerEvent::FrameAge { last, wall, now } => if stalled(
                last,
                wall,
                self.last_at_open,
                self.opened_at,
                now,
            ) {
                self.leave_stream(now, selected)
            } else {
                (self.in_phase(Phase::Watching), ManagerAction::Wait { millis: WATCH_MILLIS })
            },
            ManagerEvent::Switch { now, .. } => if self.phase is Watching {
                self.leave_stream(now, selected)
            } else {
                (self.connecting(), self.connect_to(selected))
            },
            ManagerEvent::TimedOut => if self.phase is Watching {
                (self.in_phase(Phase::Checking), ManagerAction::CheckFrames)
            } else {
                (self.connecting(), self.connect_to(selected))
            },
            ManagerEvent::ChannelClosed => (self.in_phase(Phase::Stopped), ManagerAction::Exit),
            ManagerEvent::Listed { now } => {
                let listed = ManagerState { last_listing: Some(now), ..self };
                if self.phase == (Phase::Listing { failed: true }) {
                    (
                        listed.in_phase(Phase::Retrying),
                        ManagerAction::Wait { millis: RECONNECT_MILLIS },
                    )
                } else {
                    (listed.connecting(), self.connect_to(selected))
                }
            },
        }
    }
}

impl CameraManager {
    /// The manager at its start, and its first action: to connect to the selected camera.
    pub fn start(width: u32, height: u32, fps: u32, selected: u32) -> (r: (Self, ManagerAction))
        ensures
            r.0@ == ManagerState::started(width, height, fps, RELIST_INTERVAL),
            r.1 == r.0@.connect_to(selected),
    {
        let mut manager: CameraManager = CameraManager {
            state: ManagerState {
                phase: Phase::Connecting,
                status: CameraStatus::Connecting,
                last_at_open: 0,
                opened_at: 0,
                last_listing: None,
                relist_interval: RELIST_INTERVAL,
                width,
                height,
                fps,
            },
        };
        let action: ManagerAction = manager.connect(selected);
        (manager, action)
    }

    /// Where the manager stands.
    pub fn state(&self) -> (r: ManagerState)
        ensures
            r == self@,
    {
        self.state
    }

    /// Whether the capture is to be kept; otherwise it is to be released.
    pub fn holds_capture(&self) -> (r: bool)
        ensures
            r == self@.holds(),
    {
        match self.state.phase {
            Phase::Checking => true,
            Phase::Watching => true,
            _ => false,
        }
    }

    fn release(&mut self, now: u128, selected: u32) -> (r: ManagerAction)
        ensures
            (final(self)@, r) == old(self)@.leave_stream(now, selected),
    {
        if should_list(self.state.last_listing, self.state.relist_interval, now) {
            self.state.phase = Phase::Listing { failed: false };
            ManagerAction::ListCameras
        } else {
            self.connect(selected)
        }
    }

    fn connect(&mut self, selected: u32) -> (r: ManagerAction)
        ensures
            final(self)@ == old(self)@.connecting(),
            r == old(self)@.connect_to(selected),
    {
        self.state.phase = Phase::Connecting;
        self.state.status = CameraStatus::Connecting;
        ManagerAction::Connect {
            request: CaptureRequest {
                camera_index: selected,
                width: self.state.width,
                height: self.state.height,
                fps: self.state.fps,
            },
        }
    }

    /// Takes an event in, and says what to do next. `selected` is the index of the camera
    /// that is selected at this moment.
    pub fn step(&mut self, event: ManagerEvent, selected: u32) -> (r: ManagerAction)
        requires
            old(self)@.expects(event),
        ensures
            (final(self)@, r) == old(self)@.after(event, selected),
    {
        match event {
            ManagerEvent::Connected { last, now } => {
                self.state.phase = Phase::Checking;
                self.state.status = CameraStatus::Streaming;
                self.state.last_at_open = last;
                self.state.opened_at = now;
                ManagerAction::CheckFrames
            },
            ManagerEvent::ConnectFailed { now } => {
                self.state.status = CameraStatus::Disconnected;
                if should_list(self.state.last_listing, self.state.relist_interval, now) {
                    self.state.phase = Phase::Listing { failed: true };
                    ManagerAction::ListCameras
                } else {
                    self.state.phase = Phase::Retrying;
                    ManagerAction::Wait { millis: RECONNECT_MILLIS }
                }
            },
            ManagerEvent::FrameAge { last, wall, now } => {
                if is_stalled(last, wall, self.state.last_at_open, self.state.opened_at, now) {
                    self.release(now, selected)
                } else {
                    self.state.phase = Phase::Watching;
                    ManagerAction::Wait { millis: WATCH_MILLIS }
                }
            },
            ManagerEvent::Switch { index: _, now } => {
                if self.state.phase == Phase::Watching {
                    self.release(now, selected)
                } else {
                    self.connect(selected)
                }
            },
            ManagerEvent::TimedOut => {
                if self.state.phase == Phase::Watching {
                    self.state.phase = Phase::Checking;
                    ManagerAction::CheckFrames
                } else {
                    self.connect(selected)
                }
            },
            ManagerEvent::ChannelClosed => {
                self.state.phase = Phase::Stopped;
                ManagerAction::Exit
            },
            ManagerEvent::Listed { now } => {
                self.state.last_listing = Some(now);
                if self.state.phase == (Phase::Listing { failed: true }) {
                    self.state.phase = Phase::Retrying;
                    ManagerAction::Wait { millis: RECONNECT_MILLIS }
                } else {
                    self.connect(selected)
                }
            },
        }
    }
}

/// What the manager was given, one event after the other, each with the camera that was
/// selected at that moment.
pub type Trace = Seq<(ManagerEvent, u32)>;

impl ManagerState {
    /// What a trace makes of the manager.
    pub open spec fn run(self, trace: Trace) -> ManagerState
        decreases trace.len(),
    {
        if trace.len() == 0 {
            self
        } else {
            self.run(trace.drop_last()).after(trace.last().0, trace.last().1).0
        }
    }

    /// Whether each event of a trace is one that the manager expects.
    pub open spec fn allows(self, trace: Trace) -> bool
        decreases trace.len(),
    {
        trace.len() > 0 ==> {
            &&& self.allows(trace.drop_last())
            &&& self.run(trace.drop_last()).expects(trace.last().0)
        }
    }

    /// Whether the status says where the manager stands: `Streaming` while the capture is
    /// kept, and then until the next connection is begun; `Disconnected` from a failed
    /// connection to the next.
    pub open spec fn status_is_true(self) -> bool {
        match self.phase {
            Phase::Connecting => self.status == CameraStatus::Connecting,
            Phase::Checking | Phase::Watching => self.status == CameraStatus::Streaming,
            Phase::Listing { failed } => self.status == if failed {
                CameraStatus::Disconnected
            } else {
                CameraStatus::Streaming
            },
            Phase::Retrying => self.status == CameraStatus::Disconnected,
            Phase::Stopped => self.status != CameraStatus::Connecting,
        }
    }
}

/// The clock reading that an event carries.
pub open spec fn reading(event: ManagerEvent) -> Option<u128> {
    match event {
        ManagerEvent::Connected { now, .. } => Some(now),
        ManagerEvent::ConnectFailed { now } => Some(now),
        ManagerEvent::FrameAge { now, .. } => Some(now),
        ManagerEvent::Switch { now, .. } => Some(now),
        ManagerEvent::Listed { now } => Some(now),
        _ => None,
    }
}

/// When the cameras were listed last in the course of a trace.
pub open spec fn last_listed(trace: Trace) -> Option<u128>
    decreases trace.len(),
{
    if trace.len() == 0 {
        None
    } else {
        match trace.last().0 {
            ManagerEvent::Listed { now } => Some(now),
            _ => last_listed(trace.drop_last()),
        }
    }
}

/// Whatever happens, the published status is true of the manager.
pub proof fn status_stays_true(
    width: u32,
    height: u32,
    fps: u32,
    interval: u128,
    trace: Trace,
)
    requires
        ManagerState::started(width, height, fps, interval).allows(trace),
    ensures
        ManagerState::started(width, height, fps, interval).run(trace).status_is_true(),
    decreases trace.len(),
{
    if trace.len() > 0 {
        status_stays_true(width, height, fps, interval, trace.drop_last());
    }
}

/// However often connections fail and streams stall, the cameras are listed again only when
/// the interval has passed since they were listed last.
pub proof fn listings_are_spaced(
    width: u32,
    height: u32,
    fps: u32,
    interval: u128,
    trace: Trace,
    event: ManagerEvent,
    selected: u32,
)
    requires
        ManagerState::started(width, height, fps, interval).allows(trace),
        ManagerState::started(width, height, fps, interval).run(trace).expects(event),
        ManagerState::started(width, height, fps, interval).run(trace).after(
            event,
            selected,
        ).1 is ListCameras,
    ensures
        reading(event) is Some,
        last_listed(trace) matches Some(then) ==> clock::passed(then, reading(event)->0)
            >= interval,
{
    lemma_last_listing(ManagerState::started(width, height, fps, interval), trace);
    lemma_settings_stay(ManagerState::started(width, height, fps, interval), trace);
}

/// The manager remembers when the cameras were listed last.
proof fn lemma_last_listing(m: ManagerState, trace: Trace)
    requires
        m.last_listing is None,
    ensures
        m.run(trace).last_listing == last_listed(trace),
    decreases trace.len(),
{
    if trace.len() > 0 {
        lemma_last_listing(m, trace.drop_last());
    }
}

/// Whether the clock readings of a trace do not go back.
pub open spec fn clock_goes_on(trace: Trace) -> bool {
    forall|i: int, j: int|
        0 <= i <= j < trace.len() ==> match (
            reading((#[trigger] trace[i]).0),
            reading((#[trigger] trace[j]).0),
        ) {
            (Some(earlier), Some(later)) => earlier <= later,
            _ => true,
        }
}

/// Each time that a connection fails or a stream is left, the cameras are listed exactly when
/// they never were or the interval has passed since; so they are the first time. Once that is
/// done the manager remembers when the cameras were listed: just now, or else as before.
pub proof fn losses_list_the_cameras_when_due(
    width: u32,
    height: u32,
    fps: u32,
    interval: u128,
    trace: Trace,
    event: ManagerEvent,
    selected: u32,
    listed: u128,
    selected_then: u32,
)
    requires
        ManagerState::started(width, height, fps, interval).allows(trace),
        ManagerState::started(width, height, fps, interval).run(trace).expects(event),
        ({
            let m = ManagerState::started(width, height, fps, interval).run(trace);
            event is ConnectFailed || (m.holds() && !m.after(event, selected).0.holds() && !(event
                is ChannelClosed))
        }),
    ensures
        ({
            let m = ManagerState::started(width, height, fps, interval).run(trace);
            let (left, action) = m.after(event, selected);
            let next = if action is ListCameras {
                left.after(ManagerEvent::Listed { now: listed }, selected_then).0
            } else {
                left
            };
            &&& reading(event) is Some
            &&& action is ListCameras <==> listing_due(last_listed(trace), interval, reading(event)->0)
            &&& last_listed(trace) is None ==> action is ListCameras
            &&& next.last_listing == if action is ListCameras {
                Some(listed)
            } else {
                last_listed(trace)
            }
            &&& next.last_listing is Some
        }),
{
    lemma_last_listing(ManagerState::started(width, height, fps, interval), trace);
    lemma_settings_stay(ManagerState::started(width, height, fps, interval), trace);
}

/// Once the cameras were listed, the manager remembers a time for ever after, and where the
/// clock does not go back, neither does that time.
pub proof fn listing_time_never_goes_back(
    width: u32,
    height: u32,
    fps: u32,
    interval: u128,
    trace: Trace,
    i: int,
    j: int,
)
    requires
        ManagerState::started(width, height, fps, interval).allows(trace),
        clock_goes_on(trace),
        0 <= i <= j <= trace.len(),
    ensures
        ({
            let m = ManagerState::started(width, height, fps, interval);
            m.run(trace.take(i)).last_listing matches Some(a) ==> m.run(trace.take(j)).last_listing
                matches Some(b) && a <= b
        }),
    decreases j - i,
{
    let m = ManagerState::started(width, height, fps, interval);
    if i < j {
        listing_time_never_goes_back(width, height, fps, interval, trace, i, j - 1);
        lemma_one_step(m, trace, j - 1);
        lemma_last_listing(m, trace.take(j - 1));
        if let Some(a) = last_listed(trace.take(j - 1)) {
            let k = lemma_listed_in(trace.take(j - 1), a);
            assert(trace.take(j - 1)[k] == trace[k]);
            assert(reading(trace[k].0) == Some(a));
            assert(reading(trace[j - 1].0) matches Some(now) ==> a <= now);
        }
    }
}

/// Any two listings are apart, whatever the interval: where the clock does not go back, the
/// interval lies between the end of the one and the moment that the other is asked for, and so
/// between their ends.
pub proof fn any_two_listings_are_apart(
    width: u32,
    height: u32,
    fps: u32,
    interval: u128,
    trace: Trace,
    i: int,
    j: int,
    first: u128,
    second: u128,
)
    requires
        ManagerState::started(width, height, fps, interval).allows(trace),
        clock_goes_on(trace),
        0 <= i < j < trace.len(),
        trace[i].0 == (ManagerEvent::Listed { now: first }),
        trace[j].0 == (ManagerEvent::Listed { now: second }),
    ensures
        i < j - 1,
        ManagerState::started(width, height, fps, interval).run(trace.take(j - 1)).after(
            trace[j - 1].0,
            trace[j - 1].1,
        ).1 is ListCameras,
        reading(trace[j - 1].0) matches Some(asked) && asked - first >= interval,
        second - first >= interval,
{
    let m = ManagerState::started(width, height, fps, interval);
    lemma_one_step(m, trace, i);
    lemma_one_step(m, trace, j);
    lemma_one_step(m, trace, j - 1);
    assert(trace[j - 1].0 !is Listed);
    listing_time_never_goes_back(width, height, fps, interval, trace, i + 1, j - 1);
    lemma_settings_stay(m, trace.take(j - 1));
    assert(reading(trace[i].0) == Some(first));
    assert(reading(trace[j - 1].0) matches Some(asked) && asked <= second);
}

/// The states around one event of a trace.
proof fn lemma_one_step(m: ManagerState, trace: Trace, k: int)
    requires
        m.allows(trace),
        0 <= k < trace.len(),
    ensures
        m.run(trace.take(k)).expects(trace[k].0),
        m.run(trace.take(k + 1)) == m.run(trace.take(k)).after(trace[k].0, trace[k].1).0,
    decreases trace.len(),
{
    if k == trace.len() - 1 {
        assert(trace.take(k) =~= trace.drop_last());
        assert(trace.take(k + 1) =~= trace);
    } else {
        lemma_one_step(m, trace.drop_last(), k);
        assert(trace.drop_last().take(k) =~= trace.take(k));
        assert(trace.drop_last().take(k + 1) =~= trace.take(k + 1));
    }
}

/// The event with which the cameras were listed last.
proof fn lemma_listed_in(trace: Trace, now: u128) -> (k: int)
    requires
        last_listed(trace) == Some(now),
    ensures
        0 <= k < trace.len(),
        trace[k].0 == (ManagerEvent::Listed { now }),
    decreases trace.len(),
{
    if trace.last().0 is Listed {
        trace.len() - 1
    } else {
        lemma_listed_in(trace.drop_last(), now)
    }
}

/// Every request asks for the configured frame size and rate, and for the camera that is
/// selected at that moment.
pub proof fn requests_follow_the_settings(
    width: u32,
    height: u32,
    fps: u32,
    interval: u128,
    trace: Trace,
    event: ManagerEvent,
    selected: u32,
    request: CaptureRequest,
)
    requires
        ManagerState::started(width, height, fps, interval).run(trace).after(event, selected).1 == (
        ManagerAction::Connect { request }),
    ensures
        request == (CaptureRequest { camera_index: selected, width, height, fps }),
{
    lemma_settings_stay(ManagerState::started(width, height, fps, interval), trace);
}

/// The configured frame size and rate and the interval between listings stay as they are.
proof fn lemma_settings_stay(m: ManagerState, trace: Trace)
    ensures
        m.run(trace).width == m.width,
        m.run(trace).height == m.height,
        m.run(trace).fps == m.fps,
        m.run(trace).relist_interval == m.relist_interval,
    decreases trace.len(),
{
    if trace.len() > 0 {
        lemma_settings_stay(m, trace.drop_last());
    }
}

/// Whether the manager stands where it waits for what an action brings.
pub open spec fn waits_for(m: ManagerState, action: ManagerAction) -> bool {
    match action {
        ManagerAction::Connect { .. } => m.phase is Connecting,
        ManagerAction::CheckFrames => m.phase is Checking,
        ManagerAction::Wait { millis } => if millis == WATCH_MILLIS {
            m.phase is Watching
        } else {
            m.phase is Retrying && millis == RECONNECT_MILLIS
        },
        ManagerAction::ListCameras => m.phase is Listing,
        ManagerAction::Exit => m.phase is Stopped,
    }
}

/// The manager always stands where it waits for what it has asked for.
pub proof fn actions_are_waited_for(m: ManagerState, event: ManagerEvent, selected: u32)
    requires
        m.expects(event),
    ensures
        waits_for(m.after(event, selected).0, m.after(event, selected).1),
{
}

/// The capture is released before another is opened: the manager holds none while it
/// connects.
pub proof fn one_capture_at_a_time(m: ManagerState, event: ManagerEvent, selected: u32)
    requires
        m.expects(event),
        m.after(event, selected).1 is Connect,
    ensures
        !m.after(event, selected).0.holds(),
{
}

/// A stalled stream is given up: the capture is released, and the manager connects anew, at
/// once or as soon as the cameras were listed.
pub proof fn stalled_stream_is_reconnected(
    m: ManagerState,
    last: i64,
    wall: i64,
    now: u128,
    selected: u32,
    listed: u128,
    selected_then: u32,
)
    requires
        m.phase is Checking,
        stalled(last, wall, m.last_at_open, m.opened_at, now),
    ensures
        ({
            let (left, action) = m.after(ManagerEvent::FrameAge { last, wall, now }, selected);
            let (next, then) = left.after(ManagerEvent::Listed { now: listed }, selected_then);
            &&& !left.holds()
            &&& action == m.connect_to(selected) || {
                &&& action is ListCameras
                &&& left.expects(ManagerEvent::Listed { now: listed })
                &&& then == m.connect_to(selected_then)
                &&& next.phase is Connecting
            }
        }),
{
}

/// A stream that has not stalled is kept: the manager waits and looks again.
pub proof fn live_stream_is_kept(
    m: ManagerState,
    last: i64,
    wall: i64,
    now: u128,
    selected: u32,
)
    requires
        m.phase is Checking,
        !stalled(last, wall, m.last_at_open, m.opened_at, now),
    ensures
        ({
            let (kept, action) = m.after(ManagerEvent::FrameAge { last, wall, now }, selected);
            let (again, then) = kept.after(ManagerEvent::TimedOut, selected);
            &&& kept.holds() && kept.status == m.status
            &&& action == (ManagerAction::Wait { millis: WATCH_MILLIS })
            &&& again == m
            &&& then is CheckFrames
        }),
{
}

/// A camera that was just opened is given its time to send the first frame: until then every
/// check keeps the capture, however long ago the last frame of an earlier capture came. It is
/// kept too while frames come and none is older than the stall time.
pub proof fn new_connection_is_kept(
    m: ManagerState,
    stamp: i64,
    opened: u128,
    selected: u32,
    trace: Trace,
)
    requires
        m.phase is Connecting,
        m.after(ManagerEvent::Connected { last: stamp, now: opened }, selected).0.allows(trace),
        forall|k: int|
            0 <= k < trace.len() ==> match (#[trigger] trace[k]).0 {
                ManagerEvent::FrameAge { last, wall, now } => {
                    ||| last == stamp && clock::passed(opened, now) <= FIRST_FRAME_TIME
                    ||| wall - last <= STALL_MILLIS
                },
                ManagerEvent::Switch { .. } | ManagerEvent::ChannelClosed => false,
                _ => true,
            },
    ensures
        ({
            let kept = m.after(
                ManagerEvent::Connected { last: stamp, now: opened },
                selected,
            ).0.run(trace);
            kept.holds() && kept.last_at_open == stamp && kept.opened_at == opened
        }),
    decreases trace.len(),
{
    if trace.len() > 0 {
        let before = trace.drop_last();
        assert forall|k: int| 0 <= k < before.len() implies match (#[trigger] before[k]).0 {
            ManagerEvent::FrameAge { last, wall, now } => {
                ||| last == stamp && clock::passed(opened, now) <= FIRST_FRAME_TIME
                ||| wall - last <= STALL_MILLIS
            },
            ManagerEvent::Switch { .. } | ManagerEvent::ChannelClosed => false,
            _ => true,
        } by {
            assert(before[k] == trace[k]);
        }
        new_connection_is_kept(m, stamp, opened, selected, before);
        assert(trace[trace.len() - 1] == trace.last());
    }
}

/// What is known of the opening of a camera stays until the next is opened.
pub(crate) proof fn lemma_opening_stays(m: ManagerState, trace: Trace)
    requires
        forall|k: int| 0 <= k < trace.len() ==> !((#[trigger] trace[k]).0 is Connected),
    ensures
        m.run(trace).last_at_open == m.last_at_open,
        m.run(trace).opened_at == m.opened_at,
    decreases trace.len(),
{
    if trace.len() > 0 {
        let before = trace.drop_last();
        assert forall|k: int| 0 <= k < before.len() implies !((#[trigger] before[k]).0
            is Connected) by {
            assert(before[k] == trace[k]);
        }
        lemma_opening_stays(m, before);
        assert(trace[trace.len() - 1] == trace.last());
    }
}

/// A command to switch ends the wait: the manager releases what it holds and connects to
/// the selected camera, at once or as soon as the cameras were listed, and without the wait
/// that follows a failure.
pub proof fn switch_reconnects(
    m: ManagerState,
    index: u32,
    now: u128,
    selected: u32,
    listed: u128,
    selected_then: u32,
)
    requires
        m.phase is Watching || m.phase is Retrying,
    ensures
        ({
            let (left, action) = m.after(ManagerEvent::Switch { index, now }, selected);
            let (next, then) = left.after(ManagerEvent::Listed { now: listed }, selected_then);
            &&& !left.holds()
            &&& action == m.connect_to(selected) || {
                &&& m.phase is Watching
                &&& action is ListCameras
                &&& then == m.connect_to(selected_then)
                &&& next.phase is Connecting
            }
        }),
{
}

/// A failed connection is published and tried again after the interval.
pub proof fn failed_connection_is_retried(
    m: ManagerState,
    now: u128,
    selected: u32,
    listed: u128,
    selected_then: u32,
)
    requires
        m.phase is Connecting,
    ensures
        ({
            let (failed, action) = m.after(ManagerEvent::ConnectFailed { now }, selected);
            let (waiting, wait) = if action is ListCameras {
                failed.after(ManagerEvent::Listed { now: listed }, selected)
            } else {
                (failed, action)
            };
            let (next, then) = waiting.after(ManagerEvent::TimedOut, selected_then);
            &&& failed.status == CameraStatus::Disconnected
            &&& waiting.phase is Retrying && waiting.status == CameraStatus::Disconnected
            &&& wait == (ManagerAction::Wait { millis: RECONNECT_MILLIS })
            &&& next.phase is Connecting
            &&& then == m.connect_to(selected_then)
        }),
{
}

/// Nothing but the end of the command channel ends the manager.
pub proof fn only_a_closed_channel_ends(m: ManagerState, event: ManagerEvent, selected: u32)
    requires
        m.expects(event),
    ensures
        m.after(event, selected).1 is Exit <==> event is ChannelClosed,
        m.after(event, selected).0.phase is Stopped <==> event is ChannelClosed,
{
}

/// The manager begins by connecting to the selected camera, in the configured size and rate. It
/// has listed no cameras yet, and will not list them twice within fifteen seconds.
pub proof fn manager_begins_by_connecting(
    width: u32,
    height: u32,
    fps: u32,
    selected: u32,
    m: CameraManager,
    action: ManagerAction,
)
    requires
        call_ensures(CameraManager::start, (width, height, fps, selected), (m, action)),
    ensures
        m@.phase is Connecting,
        m@.status is Connecting,
        m@.last_listing is None,
        m@.relist_interval == 15_000_000_000,
        (m@.width, m@.height, m@.fps) == (width, height, fps),
        action == (ManagerAction::Connect {
            request: CaptureRequest { camera_index: selected, width, height, fps },
        }),
        m@ == ManagerState::started(width, height, fps, RELIST_INTERVAL),
{
}

/// The capture is kept exactly while the stream is being checked or watched.
pub proof fn capture_is_kept_while_it_streams(m: CameraManager, r: bool)
    requires
        call_ensures(CameraManager::holds_capture, (&m,), r),
    ensures
        r <==> m@.phase is Checking || m@.phase is Watching,
        r <==> m@.holds(),
{
}

/// A stream has stalled exactly when its last frame is more than five seconds old. Where that
/// frame is still the one from before the camera was opened, five seconds have to have passed
/// since then as well; and no stream has while no frame has ever come.
pub proof fn stall_is_five_seconds_without_a_frame(
    last: i64,
    wall: i64,
    last_at_open: i64,
    opened_at: u128,
    now: u128,
    r: bool,
)
    requires
        i64::MIN <= wall - last <= i64::MAX,
        call_ensures(is_stalled, (last, wall, last_at_open, opened_at, now), r),
    ensures
        r <==> {
            &&& last != 0
            &&& wall > last + 5000
            &&& last == last_at_open ==> now > opened_at + 5_000_000_000
        },
        r <==> stalled(last, wall, last_at_open, opened_at, now),
{
}

/// The cameras may be listed again exactly when they never were or the interval has passed; a
/// clock that went back counts as no time.
pub proof fn listing_waits_for_the_interval(
    then: u128,
    interval: u128,
    now: u128,
    first: bool,
    again: bool,
)
    requires
        call_ensures(should_list, (None::<u128>, interval, now), first),
        call_ensures(should_list, (Some(then), interval, now), again),
    ensures
        first,
        now >= then ==> (again <==> now >= then + interval),
        now < then ==> (again <==> interval == 0),
        again <==> listing_due(Some(then), interval, now),
{
}

/// What happens next is what the manager's state says: whatever it is given, it does the step of
/// its model.
pub proof fn manager_keeps_to_its_model(
    m: &mut CameraManager,
    event: ManagerEvent,
    selected: u32,
    action: ManagerAction,
)
    requires
        old(m)@.expects(event),
        call_ensures(CameraManager::step, (m, event, selected), action),
    ensures
        final(m)@ == old(m)@.after(event, selected).0,
        action == old(m)@.after(event, selected).1,
{
}

/// The published status follows what happens: it is `Connecting` from the moment that a camera
/// is to be opened, `Streaming` once it is open, `Disconnected` once that has failed, and
/// nothing else changes it.
pub proof fn status_follows_the_events(
    m: &mut CameraManager,
    event: ManagerEvent,
    selected: u32,
    action: ManagerAction,
)
    requires
        old(m)@.expects(event),
        call_ensures(CameraManager::step, (m, event, selected), action),
    ensures
        final(m)@.status == if action is Connect {
            CameraStatus::Connecting
        } else if event is Connected {
            CameraStatus::Streaming
        } else if event is ConnectFailed {
            CameraStatus::Disconnected
        } else {
            old(m)@.status
        },
{
}

/// A camera that was opened is checked for frames at once, and its capture is kept. What was the
/// last frame before, and when the camera was opened, is remembered until the next is.
pub proof fn opened_camera_is_checked(
    m: &mut CameraManager,
    event: ManagerEvent,
    selected: u32,
    action: ManagerAction,
)
    requires
        old(m)@.expects(event),
        call_ensures(CameraManager::step, (m, event, selected), action),
    ensures
        event matches ManagerEvent::Connected { last, now } ==> {
            &&& action is CheckFrames
            &&& final(m)@.phase is Checking
            &&& final(m)@.last_at_open == last
            &&& final(m)@.opened_at == now
        },
        !(event is Connected) ==> final(m)@.last_at_open == old(m)@.last_at_open
            && final(m)@.opened_at == old(m)@.opened_at,
{
}

/// A check ends in one of two ways. The stream is kept, and looked at again a second later, or
/// it is given up, because its last frame is more than five seconds old; but not while the
/// camera has yet to send its first frame and was opened no more than five seconds ago.
pub proof fn check_keeps_or_gives_up(
    m: &mut CameraManager,
    last: i64,
    wall: i64,
    now: u128,
    selected: u32,
    action: ManagerAction,
)
    requires
        old(m)@.phase is Checking,
        i64::MIN <= wall - last <= i64::MAX,
        call_ensures(
            CameraManager::step,
            (m, ManagerEvent::FrameAge { last, wall, now }, selected),
            action,
        ),
    ensures
        ({
            let given_up = last != 0 && wall > last + 5000 && (last == old(m)@.last_at_open ==> now
                > old(m)@.opened_at + 5_000_000_000);
            if given_up {
                !final(m)@.holds() && (action is Connect || action is ListCameras)
            } else {
                final(m)@.phase is Watching && action == (ManagerAction::Wait { millis: 1000 })
            }
        }),
{
}

/// Whenever a connection has failed or a stream is left, the cameras are listed exactly when they
/// never were or the interval has passed. After a failure the manager then waits three seconds,
/// and after a stream it connects to the selected camera.
pub proof fn losses_are_followed_up(
    m: &mut CameraManager,
    event: ManagerEvent,
    selected: u32,
    action: ManagerAction,
)
    requires
        old(m)@.expects(event),
        call_ensures(CameraManager::step, (m, event, selected), action),
        event is ConnectFailed || (old(m)@.holds() && !final(m)@.holds() && !(event
            is ChannelClosed)),
    ensures
        ({
            let now = match event {
                ManagerEvent::ConnectFailed { now } => now,
                ManagerEvent::FrameAge { now, .. } => now,
                ManagerEvent::Switch { now, .. } => now,
                _ => 0,
            };
            let due = match old(m)@.last_listing {
                Some(then) => now >= then + old(m)@.relist_interval || old(m)@.relist_interval == 0,
                None => true,
            };
            &&& event is ConnectFailed || event is FrameAge || event is Switch
            &&& !final(m)@.holds()
            &&& due <==> action is ListCameras
            &&& due ==> final(m)@.phase == (Phase::Listing { failed: event is ConnectFailed })
            &&& !due && event is ConnectFailed ==> final(m)@.phase is Retrying && action == (
            ManagerAction::Wait { millis: 3000 })
            &&& !due && !(event is ConnectFailed) ==> final(m)@.phase is Connecting && action == (
            ManagerAction::Connect {
                request: CaptureRequest {
                    camera_index: selected,
                    width: old(m)@.width,
                    height: old(m)@.height,
                    fps: old(m)@.fps,
                },
            })
        }),
{
}

/// What follows a listing, a wait that ran out, a command and the end of the channel. A listing is
/// remembered, and the manager goes on as it would have without. A wait for a stream ends in a
/// check. A wait after a failure ends in a connection to the selected camera, whether it ran out
/// or a command came. The end of the channel is the end of the manager.
pub proof fn waits_and_listings_end(
    m: &mut CameraManager,
    event: ManagerEvent,
    selected: u32,
    action: ManagerAction,
)
    requires
        old(m)@.expects(event),
        call_ensures(CameraManager::step, (m, event, selected), action),
    ensures
        ({
            let connect = ManagerAction::Connect {
                request: CaptureRequest {
                    camera_index: selected,
                    width: old(m)@.width,
                    height: old(m)@.height,
                    fps: old(m)@.fps,
                },
            };
            &&& final(m)@.last_listing == match event {
                ManagerEvent::Listed { now } => Some(now),
                _ => old(m)@.last_listing,
            }
            &&& event is Listed ==> if old(m)@.phase->failed {
                final(m)@.phase is Retrying && action == (ManagerAction::Wait { millis: 3000 })
            } else {
                final(m)@.phase is Connecting && action == connect
            }
            &&& event is TimedOut && old(m)@.phase is Watching ==> final(m)@.phase is Checking
                && action is CheckFrames
            &&& (event is TimedOut || event is Switch) && old(m)@.phase is Retrying ==> {
                &&& final(m)@.phase is Connecting
                &&& action == connect
            }
            &&& event is Switch ==> !final(m)@.holds()
            &&& event is ChannelClosed <==> action is Exit
            &&& event is ChannelClosed ==> final(m)@.phase is Stopped
            &&& final(m)@.width == old(m)@.width
            &&& final(m)@.height == old(m)@.height
            &&& final(m)@.fps == old(m)@.fps
            &&& final(m)@.relist_interval == old(m)@.relist_interval
        }),
{
}

} // verus!
