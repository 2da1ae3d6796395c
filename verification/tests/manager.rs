use cam_stream::camera::{CameraStatus, CaptureRequest};
use cam_stream::clock::SECOND;
use cam_stream::manager::{
    is_stalled, should_list, CameraManager, ManagerAction, ManagerEvent, Phase, RELIST_INTERVAL,
};

fn connect(index: u32) -> ManagerAction {
    ManagerAction::Connect {
        request: CaptureRequest { camera_index: index, width: 640, height: 480, fps: 30 },
    }
}

fn started() -> CameraManager {
    let (m, action) = CameraManager::start(640, 480, 30, 4);
    assert_eq!(action, connect(4));
    assert_eq!(m.state().status, CameraStatus::Connecting);
    assert_eq!(m.state().last_listing, None);
    assert!(!m.holds_capture());
    m
}

/// A manager whose first connection failed, so that the cameras were listed at `now`.
fn listed_at(now: u128) -> CameraManager {
    let mut m = started();
    assert_eq!(m.step(ManagerEvent::ConnectFailed { now }, 4), ManagerAction::ListCameras);
    m.step(ManagerEvent::Listed { now }, 4);
    assert_eq!(m.step(ManagerEvent::TimedOut, 4), connect(4));
    assert_eq!(m.state().last_listing, Some(now));
    m
}

#[test]
fn stall_needs_more_than_five_seconds() {
    let later = 60 * SECOND;
    assert!(!is_stalled(0, 1_000_000, 0, 0, later));
    assert!(!is_stalled(100, 100, 0, 0, later));
    assert!(!is_stalled(100, 5_100, 0, 0, later));
    assert!(is_stalled(100, 5_101, 0, 0, later));
    // A frame of this capture has come: when the camera was opened does not count.
    assert!(is_stalled(100, 5_101, 99, later, later));
    // None has: the camera is given five seconds.
    assert!(!is_stalled(100, 90_000, 100, later, later));
    assert!(!is_stalled(100, 90_000, 100, later, later + 5 * SECOND));
    assert!(is_stalled(100, 90_000, 100, later, later + 5 * SECOND + 1));
    // A clock that went back is no stall.
    assert!(!is_stalled(9_000, 50, 0, 0, later));
}

#[test]
fn listing_needs_its_interval() {
    let fifteen = 15 * SECOND;
    assert_eq!(RELIST_INTERVAL, fifteen);
    assert!(should_list(None, fifteen, 0));
    assert!(!should_list(Some(SECOND), fifteen, 16 * SECOND - 1));
    assert!(should_list(Some(SECOND), fifteen, 16 * SECOND));
    assert!(!should_list(Some(100 * SECOND), fifteen, 0));
    assert!(should_list(Some(SECOND), 7, SECOND + 7));
    assert!(!should_list(Some(SECOND), 7, SECOND + 6));
    assert!(should_list(Some(SECOND), 0, 0));
}

#[test]
fn live_stream_is_watched() {
    let mut m = started();
    let opened = ManagerEvent::Connected { last: 70_000, now: SECOND / 2 };
    assert_eq!(m.step(opened, 4), ManagerAction::CheckFrames);
    assert_eq!(m.state().status, CameraStatus::Streaming);
    assert_eq!((m.state().last_at_open, m.state().opened_at), (70_000, SECOND / 2));
    assert!(m.holds_capture());
    for last in [0, 195_000, 199_999, 200_000, 300_000] {
        let event = ManagerEvent::FrameAge { last, wall: 200_000, now: SECOND };
        assert_eq!(m.step(event, 4), ManagerAction::Wait { millis: 1_000 });
        assert!(m.holds_capture());
        assert_eq!(m.step(ManagerEvent::TimedOut, 4), ManagerAction::CheckFrames);
    }
    assert_eq!(m.state().status, CameraStatus::Streaming);
}

#[test]
fn stalled_stream_is_given_up() {
    let mut m = started();
    m.step(ManagerEvent::Connected { last: 0, now: 0 }, 4);
    let event = ManagerEvent::FrameAge { last: 4_000, wall: 9_001, now: SECOND };
    assert_eq!(m.step(event, 4), ManagerAction::ListCameras);
    assert!(!m.holds_capture());
    assert_eq!(m.state().status, CameraStatus::Streaming);
    assert_eq!(m.step(ManagerEvent::Listed { now: 2 * SECOND }, 4), connect(4));
    assert_eq!(m.state().status, CameraStatus::Connecting);

    // The next stall comes too soon for another listing.
    m.step(ManagerEvent::Connected { last: 4_000, now: 3 * SECOND }, 4);
    let event = ManagerEvent::FrameAge { last: 10_500, wall: 16_000, now: 17 * SECOND - 1 };
    assert_eq!(m.step(event, 4), connect(4));

    // The one after that does not.
    m.step(ManagerEvent::Connected { last: 10_500, now: 18 * SECOND }, 4);
    let event = ManagerEvent::FrameAge { last: 17_000, wall: 23_000, now: 24 * SECOND };
    assert_eq!(m.step(event, 4), ManagerAction::ListCameras);
}

#[test]
fn reopened_camera_has_time_for_its_first_frame() {
    let mut m = listed_at(0);
    m.step(ManagerEvent::Connected { last: 0, now: 0 }, 4);
    let event = ManagerEvent::FrameAge { last: 2_000, wall: 8_000, now: SECOND };
    assert_eq!(m.step(event, 4), connect(4));

    // The last frame is still the one of the capture before.
    m.step(ManagerEvent::Connected { last: 2_000, now: 2 * SECOND }, 4);
    for now in [2 * SECOND, 3 * SECOND, 5 * SECOND, 7 * SECOND] {
        let event = ManagerEvent::FrameAge { last: 2_000, wall: 100_000, now };
        assert_eq!(m.step(event, 4), ManagerAction::Wait { millis: 1_000 });
        assert!(m.holds_capture());
        assert_eq!(m.step(ManagerEvent::TimedOut, 4), ManagerAction::CheckFrames);
    }
    let event = ManagerEvent::FrameAge { last: 2_000, wall: 100_000, now: 7 * SECOND + 1 };
    assert_eq!(m.step(event, 4), connect(4));
    assert!(!m.holds_capture());
}

#[test]
fn first_frame_ends_the_time_for_it() {
    // The wall clock is set back by an hour; then frames come and stop.
    let mut m = listed_at(0);
    m.step(ManagerEvent::Connected { last: 3_600_000, now: 0 }, 4);
    let event = ManagerEvent::FrameAge { last: 10_000, wall: 15_000, now: SECOND };
    assert_eq!(m.step(event, 4), ManagerAction::Wait { millis: 1_000 });
    m.step(ManagerEvent::TimedOut, 4);
    let event = ManagerEvent::FrameAge { last: 10_000, wall: 15_001, now: SECOND };
    assert_eq!(m.step(event, 4), connect(4));

    // The only frame comes before the camera is known to be open.
    let mut m = listed_at(0);
    m.step(ManagerEvent::Connected { last: 0, now: 5_000_000 }, 4);
    let event = ManagerEvent::FrameAge { last: 1_000, wall: 6_000, now: 5 * SECOND };
    assert_eq!(m.step(event, 4), ManagerAction::Wait { millis: 1_000 });
    m.step(ManagerEvent::TimedOut, 4);
    let event = ManagerEvent::FrameAge { last: 1_000, wall: 6_001, now: 5 * SECOND };
    assert_eq!(m.step(event, 4), connect(4));
}

#[test]
fn switch_reconnects_to_the_selected_camera() {
    let mut m = listed_at(0);
    m.step(ManagerEvent::Connected { last: 0, now: 1 }, 4);
    m.step(ManagerEvent::FrameAge { last: 0, wall: 6, now: 1 }, 4);
    assert_eq!(m.step(ManagerEvent::Switch { index: 2, now: 1 }, 2), connect(2));
    assert!(!m.holds_capture());

    m.step(ManagerEvent::ConnectFailed { now: 1 }, 2);
    assert_eq!(m.state().phase, Phase::Retrying);
    assert_eq!(m.step(ManagerEvent::Switch { index: 1, now: 20 * SECOND }, 1), connect(1));
}

#[test]
fn failed_connection_is_tried_again() {
    let mut m = started();
    assert_eq!(m.step(ManagerEvent::ConnectFailed { now: 7 }, 4), ManagerAction::ListCameras);
    assert_eq!(m.state().status, CameraStatus::Disconnected);
    let wait = ManagerAction::Wait { millis: 3_000 };
    assert_eq!(m.step(ManagerEvent::Listed { now: 8 }, 4), wait);
    assert_eq!(m.state().last_listing, Some(8));
    assert_eq!(m.state().status, CameraStatus::Disconnected);
    assert_eq!(m.step(ManagerEvent::TimedOut, 5), connect(5));
    assert_eq!(m.state().status, CameraStatus::Connecting);
    assert_eq!(m.step(ManagerEvent::ConnectFailed { now: SECOND }, 5), wait);
}

#[test]
fn listings_keep_their_distance() {
    // A connection that fails every second, with a listing that takes half a second.
    let mut m = started();
    let mut times: Vec<u128> = Vec::new();
    for i in 0..100u128 {
        let now = i * SECOND;
        let before = m.state().last_listing;
        if m.step(ManagerEvent::ConnectFailed { now }, 4) == ManagerAction::ListCameras {
            times.push(now);
            m.step(ManagerEvent::Listed { now: now + SECOND / 2 }, 4);
        }
        assert!(m.state().last_listing.is_some() && before <= m.state().last_listing);
        m.step(ManagerEvent::TimedOut, 4);
    }
    let seconds: Vec<u128> = times.iter().map(|t| t / SECOND).collect();
    assert_eq!(seconds, vec![0, 16, 32, 48, 64, 80, 96]);
}

#[test]
fn closed_channel_ends_the_manager() {
    let mut m = started();
    m.step(ManagerEvent::Connected { last: 0, now: 1 }, 4);
    m.step(ManagerEvent::FrameAge { last: 2, wall: 3, now: 1 }, 4);
    assert_eq!(m.step(ManagerEvent::ChannelClosed, 4), ManagerAction::Exit);
    assert_eq!(m.state().phase, Phase::Stopped);
    assert!(!m.holds_capture());

    let mut m = listed_at(0);
    m.step(ManagerEvent::ConnectFailed { now: 1 }, 4);
    assert_eq!(m.step(ManagerEvent::ChannelClosed, 4), ManagerAction::Exit);
}
