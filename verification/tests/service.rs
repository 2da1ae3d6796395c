use cam_stream::camera::{list_cameras, spawn_capture, CaptureStep, StepReply};
use cam_stream::capture::FrameSource;
use cam_stream::clock::{millis_since, unix_millis};
use cam_stream::manager::{is_stalled, CameraManager, ManagerAction, ManagerEvent};
use cam_stream::native_format::{
    choose_native_format, ChosenFormat, NativeType, SUBTYPE_MJPG, SUBTYPE_RGB32,
};
use cam_stream::settings_app::{ApplyStep, CamApp};

#[test]
fn clicked_camera_is_the_one_opened() {
    let names = vec![Some("A".to_string()), Some("B".to_string()), Some("C".to_string())];
    let count = names.len() as u32;
    let cams = list_cameras(Some(names));
    let mut app = CamApp::new();
    app.open_settings(0);
    app.select(&cams, &vec![false, false, true]);
    assert!(app.apply_enabled(0));

    let (mut manager, _) = CameraManager::start(640, 480, 30, 0);
    manager.step(ManagerEvent::Connected { last: 0, now: 0 }, 0);
    manager.step(ManagerEvent::FrameAge { last: 1_010, wall: 1_020, now: 1 }, 0);

    let mut in_use = 0;
    let mut command = None;
    for step in app.apply() {
        match step {
            ApplyStep::StoreIndex { index } => in_use = index,
            ApplyStep::SendSwitch { index } => {
                assert_eq!(in_use, index);
                command = Some(index);
            }
        }
    }
    // The cameras were not listed yet, so that comes first.
    let event = ManagerEvent::Switch { index: command.unwrap(), now: 2 };
    assert_eq!(manager.step(event, in_use), ManagerAction::ListCameras);
    assert!(!manager.holds_capture());
    let request = match manager.step(ManagerEvent::Listed { now: 3 }, in_use) {
        ManagerAction::Connect { request } => request,
        other => panic!("unexpected action {:?}", other),
    };
    let step = spawn_capture(&request, CaptureStep::Enumerate, StepReply::Devices { count });
    assert!(matches!(step, CaptureStep::Activate { device: 2 }));
}

#[test]
fn published_frame_holds_off_the_stall() {
    let format = ChosenFormat { width: 1, height: 1, is_mjpg: true };
    let mut source = FrameSource::new(format);
    let last = source.handle(Ok(vec![1]), Some(1_000_000)).unwrap().last_frame_time;
    assert_eq!(millis_since(last, 1_005_000), Some(5_000));
    assert!(!is_stalled(last, unix_millis(Some(1_005_000)), 0, 0, 1));
    assert!(is_stalled(last, unix_millis(Some(1_005_001)), 0, 0, 1));
    assert!(!is_stalled(last, unix_millis(Some(900_000)), 0, 0, 1));
}

#[test]
fn requested_size_is_captured() {
    let native = |subtype, w: u64, h: u64| NativeType {
        subtype: Some(subtype),
        frame_size: Some((w << 32) | h),
    };
    let types = vec![
        native(SUBTYPE_RGB32, 1280, 720),
        native(SUBTYPE_RGB32, 640, 480),
        native(SUBTYPE_RGB32, 640, 360),
    ];
    let c = choose_native_format(&types, 640, 480).unwrap();
    assert_eq!((c.index, c.format.width, c.format.height), (1, 640, 480));
    let mut types = types;
    types.push(native(SUBTYPE_MJPG, 640, 480));
    assert_eq!(choose_native_format(&types, 640, 480).unwrap().index, 3);
}
