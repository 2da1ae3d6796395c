use cam_stream::clock::SECOND;
use cam_stream::frame::JpegFrame;
use cam_stream::stream::{Session, SessionAction, SessionEvent, SessionPhase, CHANNEL_CAPACITY};

fn frame(seq: u64) -> JpegFrame {
    JpegFrame::new(vec![0xFF, seq as u8], seq)
}

/// The number and the image of the frame that is to be sent.
fn sent(action: SessionAction) -> (u64, Vec<u8>) {
    match action {
        SessionAction::SendFrame { frame } => (frame.seq, frame.message()),
        other => panic!("unexpected action {:?}", other),
    }
}

#[test]
fn frames_are_sent_as_they_come() {
    assert_eq!(CHANNEL_CAPACITY, 8);
    let mut s = Session::open(0);
    for seq in [4u64, 5, 9] {
        let action = s.step(SessionEvent::Frame { frame: frame(seq), now: SECOND - 1 });
        assert_eq!(sent(action), (seq, vec![0xFF, seq as u8]));
        assert!(matches!(s.step(SessionEvent::FrameSent), SessionAction::Receive));
    }
    assert_eq!(s.state().frames_in_window, 3);
}

#[test]
fn report_precedes_the_frame_once_a_second() {
    let mut s = Session::open(5);
    s.step(SessionEvent::Frame { frame: frame(10), now: 6 });
    s.step(SessionEvent::FrameSent);
    let action = s.step(SessionEvent::Frame { frame: frame(11), now: 5 + SECOND });
    assert!(matches!(action, SessionAction::SendStats { frames: 2, since: 5, seq: 11 }));
    assert!(matches!(&s.state().phase, SessionPhase::SendingStats { frame } if frame.seq == 11));
    let action = s.step(SessionEvent::StatsSent { now: 6 + SECOND });
    assert_eq!(sent(action), (11, vec![0xFF, 11]));
    assert!(matches!(s.state().phase, SessionPhase::SendingFrame));
    assert_eq!((s.state().frames_in_window, s.state().window_start), (0, 6 + SECOND));
    assert!(matches!(s.step(SessionEvent::FrameSent), SessionAction::Receive));
    let action = s.step(SessionEvent::Frame { frame: frame(12), now: 5 + 2 * SECOND });
    assert_eq!(sent(action), (12, vec![0xFF, 12]));
    assert_eq!(s.state().frames_in_window, 1);
}

#[test]
fn viewer_gets_the_frames_in_order() {
    let mut s = Session::open(0);
    let mut got = Vec::new();
    for seq in 0..50u64 {
        let now = u128::from(seq) * SECOND / 10;
        let mut action = s.step(SessionEvent::Frame { frame: frame(seq), now });
        if let SessionAction::SendStats { .. } = action {
            action = s.step(SessionEvent::StatsSent { now });
        }
        got.push(sent(action));
        s.step(SessionEvent::FrameSent);
        if seq % 7 == 0 {
            s.step(SessionEvent::Lagged);
        }
    }
    let came: Vec<(u64, Vec<u8>)> = (0..50).map(|k| (k, frame(k).message())).collect();
    assert_eq!(got, came);
}

#[test]
fn lagging_viewer_is_kept() {
    let mut s = Session::open(3);
    assert!(matches!(s.step(SessionEvent::Lagged), SessionAction::Receive));
    assert!(matches!(s.step(SessionEvent::ViewerMessage), SessionAction::Receive));
    assert!(matches!(s.state().phase, SessionPhase::Waiting));
    assert_eq!((s.state().frames_in_window, s.state().window_start), (0, 3));
}

#[test]
fn session_is_closed() {
    for event in [SessionEvent::ChannelClosed, SessionEvent::ViewerClosed] {
        let mut s = Session::open(0);
        assert!(matches!(s.step(event), SessionAction::Close));
        assert!(matches!(s.state().phase, SessionPhase::Closed));
    }
    let mut s = Session::open(0);
    s.step(SessionEvent::Frame { frame: frame(0), now: 0 });
    assert!(matches!(s.step(SessionEvent::SendFailed), SessionAction::Close));
    let mut s = Session::open(0);
    s.step(SessionEvent::Frame { frame: frame(0), now: SECOND });
    assert!(matches!(s.step(SessionEvent::SendFailed), SessionAction::Close));
    // A report that was not sent opens no new window.
    assert_eq!((s.state().frames_in_window, s.state().window_start), (1, 0));
}
