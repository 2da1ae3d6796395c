use cam_stream::camera::{
    health, list_cameras, spawn_capture, CameraStatus, CaptureError, CaptureInfo, CaptureRequest,
    CaptureStep, StepReply,
};
use cam_stream::native_format::{
    better_fit, choose_native_format, NativeType, SUBTYPE_MJPG, SUBTYPE_RGB32,
};

fn native(subtype: u128, w: u64, h: u64) -> NativeType {
    NativeType { subtype: Some(subtype), frame_size: Some((w << 32) | h) }
}

fn request(index: u32) -> CaptureRequest {
    CaptureRequest { camera_index: index, width: 640, height: 480, fps: 30 }
}

#[test]
fn status_codes_and_names() {
    assert_eq!(CameraStatus::from_u8(0), CameraStatus::Disconnected);
    assert_eq!(CameraStatus::from_u8(1), CameraStatus::Connecting);
    assert_eq!(CameraStatus::from_u8(2), CameraStatus::Streaming);
    assert_eq!(CameraStatus::from_u8(3), CameraStatus::Disconnected);
    assert_eq!(CameraStatus::from_u8(255), CameraStatus::Disconnected);
    for s in [CameraStatus::Disconnected, CameraStatus::Connecting, CameraStatus::Streaming] {
        assert_eq!(CameraStatus::from_u8(s.to_u8()), s);
        assert_eq!(s.to_u8(), s as u8);
    }
    assert_eq!(CameraStatus::Disconnected.as_str(), "disconnected");
    assert_eq!(CameraStatus::Connecting.as_str(), "connecting");
    assert_eq!(CameraStatus::Streaming.as_str(), "streaming");
}

#[test]
fn health_report_names_the_status() {
    let r = health(CameraStatus::Streaming.to_u8());
    assert_eq!((r.status, r.camera), ("ok", "streaming"));
    assert_eq!(health(7).camera, "disconnected");
}

#[test]
fn cameras_are_listed_by_position() {
    let list = list_cameras(Some(vec![Some("Webcam".to_string()), None, Some("卡".to_string())]));
    assert_eq!(list.len(), 3);
    assert_eq!(list[0].index, 0);
    assert_eq!(list[0].name, "Webcam");
    assert_eq!(list[0].description, "Media Foundation");
    assert_eq!(list[1].index, 1);
    assert_eq!(list[1].name, "");
    assert_eq!(list[2].index, 2);
    assert_eq!(list[2].name, "卡");
    let copy = list[2].clone();
    assert_eq!((copy.index, copy.name.as_str()), (2, "卡"));
    assert!(list_cameras(None).is_empty());
    assert!(list_cameras(Some(vec![])).is_empty());
}

#[test]
fn better_fit_compares_distances() {
    assert!(better_fit(&None, 0, 0, 640, 480));
    assert!(better_fit(&Some((1280, 720)), 640, 480, 640, 480));
    assert!(!better_fit(&Some((640, 480)), 1280, 720, 640, 480));
    // Equal distances keep the first.
    assert!(!better_fit(&Some((650, 480)), 630, 480, 640, 480));
    assert!(better_fit(&Some((u32::MAX, u32::MAX)), u32::MAX, u32::MAX - 1, 0, 0));
}

#[test]
fn frame_size_is_unpacked() {
    assert_eq!(native(SUBTYPE_MJPG, 1920, 1080).size(), (1920, 1080));
    assert_eq!(NativeType { subtype: None, frame_size: None }.size(), (0, 0));
    let all = NativeType { subtype: None, frame_size: Some(u64::MAX) };
    assert_eq!(all.size(), (u32::MAX, u32::MAX));
}

#[test]
fn nearest_size_is_chosen() {
    let types = vec![
        native(SUBTYPE_RGB32, 1920, 1080),
        native(SUBTYPE_RGB32, 800, 600),
        native(SUBTYPE_RGB32, 320, 240),
    ];
    let c = choose_native_format(&types, 640, 480).unwrap();
    assert_eq!(c.index, 1);
    assert_eq!((c.format.width, c.format.height, c.format.is_mjpg), (800, 600, false));
}

#[test]
fn mjpg_is_chosen_over_a_nearer_rgb32() {
    let types = vec![
        native(SUBTYPE_MJPG, 1920, 1080),
        native(SUBTYPE_RGB32, 640, 480),
        native(SUBTYPE_MJPG, 1280, 720),
        native(SUBTYPE_RGB32, 800, 600),
    ];
    let c = choose_native_format(&types, 640, 480).unwrap();
    assert_eq!(c.index, 2);
    assert_eq!((c.format.width, c.format.height, c.format.is_mjpg), (1280, 720, true));
}

#[test]
fn first_of_equal_sizes_is_chosen() {
    let types = vec![
        native(0x1234, 640, 480),
        native(SUBTYPE_MJPG, 650, 480),
        native(SUBTYPE_MJPG, 630, 480),
        native(SUBTYPE_MJPG, 650, 480),
    ];
    assert_eq!(choose_native_format(&types, 640, 480).unwrap().index, 1);
}

#[test]
fn other_subtypes_are_no_choice() {
    let types = vec![native(0x3231564E_0000_0010_8000_00AA00389B71, 640, 480)];
    assert!(choose_native_format(&types, 640, 480).is_none());
    assert!(choose_native_format(&vec![], 640, 480).is_none());
    let unknown = vec![NativeType { subtype: None, frame_size: Some(0) }];
    assert!(choose_native_format(&unknown, 640, 480).is_none());
}

#[test]
fn capture_is_opened_step_by_step() {
    let req = request(1);
    let s = spawn_capture(&req, CaptureStep::Startup, StepReply::Done);
    assert!(matches!(s, CaptureStep::Enumerate));
    let s = spawn_capture(&req, s, StepReply::Devices { count: 2 });
    assert!(matches!(s, CaptureStep::Activate { device: 1 }));
    let s = spawn_capture(&req, s, StepReply::Done);
    assert!(matches!(s, CaptureStep::OpenReader));
    let s = spawn_capture(&req, s, StepReply::Done);
    assert!(matches!(s, CaptureStep::ListTypes));
    let types = vec![native(SUBTYPE_RGB32, 640, 480), native(SUBTYPE_MJPG, 1280, 720)];
    let s = spawn_capture(&req, s, StepReply::Types { types });
    match &s {
        CaptureStep::SetMediaType { choice } => assert_eq!(choice.index, 1),
        _ => panic!("no media type was chosen"),
    }
    let s = spawn_capture(&req, s, StepReply::Done);
    match &s {
        CaptureStep::StartThread { format } => assert!(format.is_mjpg),
        _ => panic!("the thread is not started"),
    }
    let s = spawn_capture(&req, s, StepReply::Done);
    match s {
        CaptureStep::Running { info } => {
            assert_eq!(info, CaptureInfo { width: 1280, height: 720 })
        }
        _ => panic!("the capture does not run"),
    }
}

fn failure(req: &CaptureRequest, step: CaptureStep, reply: StepReply) -> CaptureError {
    match spawn_capture(req, step, reply) {
        CaptureStep::Failed { error } => error,
        other => panic!("unexpected step {:?}", other),
    }
}

fn because(reason: &str) -> StepReply {
    StepReply::Failed { reason: reason.to_string() }
}

#[test]
fn each_failing_step_has_its_error() {
    let req = request(3);
    let e = failure(&req, CaptureStep::Startup, because("x"));
    assert!(matches!(e, CaptureError::Startup));
    assert_eq!(e.message(), "MFStartup 失败");

    let e = failure(&req, CaptureStep::Enumerate, because("拒绝访问"));
    assert!(matches!(e, CaptureError::Enumerate { .. }));
    assert_eq!(e.message(), "拒绝访问");

    let e = failure(&req, CaptureStep::Enumerate, StepReply::Devices { count: 0 });
    assert!(matches!(e, CaptureError::NoDevices));
    assert_eq!(e.message(), "系统未检测到任何视频输入设备");

    let e = failure(&req, CaptureStep::Enumerate, StepReply::Devices { count: 3 });
    assert!(matches!(e, CaptureError::NoSuchDevice { index: 3, count: 3 }));
    assert_eq!(e.message(), "设备 index=3 不存在（共 3 个设备）");

    let e = failure(&req, CaptureStep::Activate { device: 3 }, because("busy"));
    assert_eq!(e.message(), "ActivateObject 失败(index=3): busy");

    let e = failure(&req, CaptureStep::OpenReader, because("busy"));
    assert_eq!(e.message(), "MFCreateSourceReaderFromMediaSource 失败: busy");

    let e = failure(&req, CaptureStep::ListTypes, StepReply::Types { types: vec![] });
    assert!(matches!(e, CaptureError::NoUsableFormat));
    assert_eq!(e.message(), "设备未提供 MJPG 或 RGB32 格式（可能是采集卡兼容问题）");

    let types = vec![native(SUBTYPE_MJPG, 640, 480)];
    let s = spawn_capture(&req, CaptureStep::ListTypes, StepReply::Types { types });
    let e = failure(&req, s, because("bad type"));
    assert!(matches!(e, CaptureError::SetMediaType { .. }));
    assert_eq!(e.message(), "SetCurrentMediaType 失败: bad type");

    let types = vec![native(SUBTYPE_MJPG, 640, 480)];
    let s = spawn_capture(&req, CaptureStep::ListTypes, StepReply::Types { types });
    let s = spawn_capture(&req, s, StepReply::Done);
    let e = failure(&req, s, because("no threads"));
    assert!(matches!(e, CaptureError::StartThread { .. }));
    assert_eq!(e.message(), "创建采集线程失败: no threads");
}
