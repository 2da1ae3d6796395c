//! What the parts of the service promise together.
use vstd::prelude::*;

use crate::camera;
use crate::camera::{CameraInfo, CameraStatus, CaptureStep};
use crate::capture;
use crate::capture::{FrameSource, Published, SourceState};
use crate::clock;
use crate::clock::unix_millis;
use crate::frame;
use crate::frame::{EncodeError, JpegFrame};
use crate::manager;
use crate::manager::{CameraManager, ManagerAction, ManagerEvent, ManagerState, Trace};
use crate::settings_app;
use crate::settings_app::WindowState;
use crate::stream::{SessionAction, SessionEvent, SessionState};

verus! {

/// Switching cameras while the service runs: the camera whose row was clicked can be applied
/// if it is not the one in use. From the moment that applying it has sent the command to
/// switch, the manager that gets the command goes on to connect, at once or as soon as it has
/// listed the cameras, and asks for that camera. The device in the clicked row is activated.
pub proof fn clicked_camera_is_opened(
    names: Vec<Option<String>>,
    cams: Seq<CameraInfo>,
    before: WindowState,
    clicked: Seq<bool>,
    app: WindowState,
    row: int,
    in_use: u32,
    done: int,
    m: ManagerState,
    now: u128,
    listed: u128,
)
    requires
        camera::is_listing(Some(names), cams),
        names@.len() <= u32::MAX,
        clicked.len() == cams.len(),
        0 <= row < cams.len(),
        clicked[row],
        forall|j: int| row < j < clicked.len() ==> !#[trigger] clicked[j],
        app.selected == settings_app::selection_after(cams, clicked, before.selected),
        row != in_use,
        0 <= done <= app.apply_steps().len(),
        settings_app::commands_sent(app.apply_steps().take(done)).len() > 0,
        m.phase is Watching || m.phase is Retrying,
    ensures
        app.can_apply(in_use),
        ({
            let selected = settings_app::in_use_after(in_use, app.apply_steps().take(done));
            let command = settings_app::commands_sent(app.apply_steps())[0];
            let (left, action) = m.after(ManagerEvent::Switch { index: command, now }, selected);
            let (next, connect) = if action is ListCameras {
                left.after(ManagerEvent::Listed { now: listed }, selected)
            } else {
                (left, action)
            };
            &&& command == row
            &&& !left.holds()
            &&& left.expects(ManagerEvent::Listed { now: listed }) <==> action is ListCameras
            &&& next.phase is Connecting
            &&& connect matches ManagerAction::Connect { request } && request.camera_index == row
                && camera::after_count(request.camera_index, names@.len() as u32) == (
            CaptureStep::Activate { device: row as u32 })
        }),
{
    settings_app::click_selects_its_camera(cams, clicked, before.selected, row);
    settings_app::index_is_stored_before_the_command(app, in_use, done);
    camera::listed_camera_is_activated(names, cams, row);
}

/// From the moment that a camera was opened until the next is, a check gives the camera up
/// exactly when a frame has come at some time and the last one is older than the stall time;
/// but while no frame has come since the opening, so that the time of the last one is still
/// `stamp`, only once the time for the first frame is over as well.
pub proof fn stall_is_the_time_without_frames(
    m: ManagerState,
    stamp: i64,
    opened: u128,
    chosen: u32,
    trace: Trace,
    last: i64,
    wall: i64,
    now: u128,
    selected: u32,
)
    requires
        m.phase is Connecting,
        m.after(ManagerEvent::Connected { last: stamp, now: opened }, chosen).0.allows(trace),
        forall|k: int| 0 <= k < trace.len() ==> !((#[trigger] trace[k]).0 is Connected),
        m.after(ManagerEvent::Connected { last: stamp, now: opened }, chosen).0.run(
            trace,
        ).phase is Checking,
    ensures
        ({
            let checking = m.after(
                ManagerEvent::Connected { last: stamp, now: opened },
                chosen,
            ).0.run(trace);
            let given_up = !checking.after(
                ManagerEvent::FrameAge { last, wall, now },
                selected,
            ).0.holds();
            let too_old = last != 0 && wall - last > manager::STALL_MILLIS;
            &&& too_old <==> (clock::frame_age(last, wall) matches Some(age) && age
                > manager::STALL_MILLIS)
            &&& last != stamp ==> (given_up <==> too_old)
            &&& last == stamp ==> (given_up <==> too_old && clock::passed(opened, now)
                > manager::FIRST_FRAME_TIME)
        }),
{
    manager::lemma_opening_stays(
        m.after(ManagerEvent::Connected { last: stamp, now: opened }, chosen).0,
        trace,
    );
}

/// A frame that is published keeps the stream from stalling for the stall time, wherever the
/// wall clock stands and whenever the camera was opened.
pub proof fn published_frame_keeps_the_stream(
    before: SourceState,
    jpeg: Vec<u8>,
    published: u128,
    out: Published,
    after: SourceState,
    seen: u128,
    m: ManagerState,
    now: u128,
    selected: u32,
)
    requires
        capture::handles(before, Ok::<Vec<u8>, EncodeError>(jpeg), Some(published), Some(out), after),
        m.phase is Checking,
        published <= i64::MAX,
        seen <= i64::MAX,
        seen <= published + manager::STALL_MILLIS,
    ensures
        m.after(
            ManagerEvent::FrameAge {
                last: out.last_frame_time,
                wall: clock::wall_millis(Some(seen)),
                now,
            },
            selected,
        ).0.holds(),
{
}

/// The health report names the status that the manager published.
pub proof fn health_names_the_status(status: CameraStatus)
    ensures
        CameraStatus::of_code(status.code()).name() == status.name(),
{
}

/// A camera that sends no more frames is given up once the last is more than five seconds old,
/// and not before: a frame goes out at one moment, and the manager looks at another. The capture
/// is kept for as long as the moments are no more than five seconds apart, and given up beyond,
/// where the frame is one that this capture has sent, or the time for its first is over.
pub proof fn lost_camera_is_given_up(
    source: &mut FrameSource,
    jpeg: Vec<u8>,
    published: u128,
    out: Published,
    m: &mut CameraManager,
    seen: u128,
    wall: i64,
    now: u128,
    selected: u32,
    action: ManagerAction,
)
    requires
        call_ensures(
            FrameSource::handle,
            (source, Ok::<Vec<u8>, EncodeError>(jpeg), Some(published)),
            Some(out),
        ),
        call_ensures(unix_millis, (Some(seen),), wall),
        old(m)@.phase is Checking,
        call_ensures(
            CameraManager::step,
            (m, ManagerEvent::FrameAge { last: out.last_frame_time, wall, now }, selected),
            action,
        ),
        0 < published <= i64::MAX,
        seen <= i64::MAX,
        old(m)@.last_at_open != published || now > old(m)@.opened_at + 5_000_000_000,
    ensures
        seen > published + 5000 <==> !final(m)@.holds(),
        seen > published + 5000 ==> action is Connect || action is ListCameras,
        seen <= published + 5000 ==> action == (ManagerAction::Wait { millis: 1000 }),
{
}

/// What a device captures is what a viewer sees: of an RGB32 sample the JPEG image of its pixels,
/// of an MJPG sample the sample. It travels as the image of the frame, and the session sends that
/// frame, at once or after the report that is due.
pub proof fn viewer_sees_what_was_captured(
    source: FrameSource,
    data: &[u8],
    jpeg: Vec<u8>,
    capture: &mut FrameSource,
    since_epoch: Option<u128>,
    out: Published,
    copy: JpegFrame,
    s: SessionState,
    now: u128,
    sent: u128,
    action: SessionAction,
    message: Vec<u8>,
)
    requires
        capture::sample_is_whole(source@.format, data@.len()),
        call_ensures(
            FrameSource::image,
            (&source, data),
            Ok::<Vec<u8>, EncodeError>(jpeg),
        ),
        call_ensures(
            FrameSource::handle,
            (capture, Ok::<Vec<u8>, EncodeError>(jpeg), since_epoch),
            Some(out),
        ),
        call_ensures(JpegFrame::clone, (&out.frame,), copy),
        s.expects(SessionEvent::Frame { frame: copy, now }),
        action == if s.after(SessionEvent::Frame { frame: copy, now }).1 is SendStats {
            s.after(SessionEvent::Frame { frame: copy, now }).0.after(
                SessionEvent::StatsSent { now: sent },
            ).1
        } else {
            s.after(SessionEvent::Frame { frame: copy, now }).1
        },
        call_ensures(JpegFrame::message, (&action->frame,), message),
    ensures
        action is SendFrame,
        action->frame.seq == old(capture)@.next_seq,
        source@.format.is_mjpg ==> message@ == data@,
        !source@.format.is_mjpg ==> message@ == frame::jpeg_of(
            frame::rgb_of(data@),
            source@.format.width,
            source@.format.height,
            80,
        ),
{
}

} // verus!
