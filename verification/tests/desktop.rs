use cam_stream::camera::list_cameras;
use cam_stream::clock::SECOND;
use cam_stream::config::{Config, Variables};
use cam_stream::log_viewer::{
    after_attempt, follow_file, latest_log_file, open, AfterAttempt, Attempt, LogEntry,
};
use cam_stream::settings_app::{
    ApplyStep, CamApp, CommandAction, DeviceList, WindowMove, OFF_SCREEN, ON_SCREEN,
};
use cam_stream::text::{
    after_last, chars_of, parse_u32, push_decimal, starts_with, trim_trailing_spaces,
};
use cam_stream::tray::{
    build, command_for, commands_for, make_icon, poll_commands, MenuEntry, TrayCommand, ICON_SIZE,
};

fn decimal(n: u64) -> String {
    let mut s = String::from("n=");
    push_decimal(&mut s, n);
    s
}

#[test]
fn numbers_are_written_in_decimal() {
    assert_eq!(decimal(0), "n=0");
    assert_eq!(decimal(9), "n=9");
    assert_eq!(decimal(10), "n=10");
    assert_eq!(decimal(1_234_567_890), "n=1234567890");
    assert_eq!(decimal(u64::MAX), format!("n={}", u64::MAX));
}

#[test]
fn numbers_are_read() {
    for s in [
        "0", "7", "640", "+480", "+", "-", "-0", "", " 1", "1 ", "1_000", "00042", "4294967295",
        "4294967296", "99999999999999999999999", "1x", "x1", "++1", "+-1", "١", "0x10", "3.0",
        "+00000000000000000000001",
    ] {
        assert_eq!(parse_u32(s), s.parse::<u32>().ok(), "{:?}", s);
    }
    for n in [0u32, 1, 10, 99, 1_000_000, u32::MAX] {
        let mut s = String::new();
        push_decimal(&mut s, n as u64);
        assert_eq!(parse_u32(&s), Some(n));
    }
}

#[test]
fn text_is_taken_apart() {
    assert_eq!(chars_of("a卡b"), vec!['a', '卡', 'b']);
    assert!(starts_with("cam-stream.log.2026-07-07", "cam-stream.log"));
    assert!(starts_with("cam-stream.log", "cam-stream.log"));
    assert!(!starts_with("cam-stream.lo", "cam-stream.log"));
    assert!(!starts_with("Cam-stream.log", "cam-stream.log"));
    assert!(starts_with("", ""));
    for s in ["0.0.0.0:3000", "[::1]:80", "localhost", ":", "", "a:b:", "卡:口"] {
        assert_eq!(after_last(s, ':'), s.split(':').last().unwrap(), "{:?}", s);
    }
}

#[test]
fn configuration_has_defaults() {
    let none = Variables { index: None, width: None, height: None, fps: None, bind_addr: None };
    let c = Config::from_variables(none);
    assert_eq!((c.index, c.width, c.height, c.fps), (0, 640, 480, 30));
    assert_eq!(c.bind_addr, "0.0.0.0:3000");
    assert_eq!(c.bind_port(), "3000");
}

#[test]
fn configuration_is_read() {
    let c = Config::from_variables(Variables {
        index: Some("1".to_string()),
        width: Some("1280".to_string()),
        height: Some("720p".to_string()),
        fps: Some("60".to_string()),
        bind_addr: Some("127.0.0.1:8080".to_string()),
    });
    assert_eq!((c.index, c.width, c.height, c.fps), (1, 1280, 480, 60));
    assert_eq!(c.bind_port(), "8080");
}

#[test]
fn spaces_after_numbers_do_not_count() {
    for s in ["1280 ", " 720\t", "  ", "", "a b", " a b  ", "卡 ", "1", "1\t "] {
        assert_eq!(trim_trailing_spaces(s), s.trim_end_matches(' '), "{:?}", s);
    }
    let c = Config::from_variables(Variables {
        index: Some("1 ".to_string()),
        width: Some("1280 ".to_string()),
        height: Some("720".to_string()),
        fps: None,
        bind_addr: None,
    });
    assert_eq!((c.index, c.width, c.height, c.fps), (1, 1280, 720, 30));
    // Only spaces, and only after the number.
    let c = Config::from_variables(Variables {
        index: Some("  ".to_string()),
        width: Some(" 1280".to_string()),
        height: Some("+600   ".to_string()),
        fps: Some("25\t".to_string()),
        bind_addr: None,
    });
    assert_eq!((c.index, c.width, c.height, c.fps), (0, 640, 600, 30));
}

fn entry(name: &str, modified: Option<i128>) -> LogEntry {
    LogEntry { name: name.to_string(), modified, path: format!("C:\\logs\\{}", name) }
}

#[test]
fn latest_log_is_found() {
    let entries = vec![
        entry("notes.txt", Some(900)),
        entry("cam-stream.log.2026-07-05", Some(10)),
        entry("cam-stream.log.2026-07-07", Some(30)),
        entry("cam-stream.log.2026-07-08", None),
        entry("cam-stream.log.2026-07-06", Some(30)),
    ];
    assert_eq!(latest_log_file(&entries), Some(2));
    assert_eq!(latest_log_file(&entries[..1].iter().map(|e| entry(&e.name, e.modified)).collect()), None);
    assert_eq!(latest_log_file(&vec![entry("cam-stream.log", Some(-5))]), Some(0));
}

#[test]
fn log_window_is_planned() {
    let entries = Some(vec![entry("cam-stream.log", Some(1))]);
    let w = open(&entries).unwrap();
    assert_eq!(w.entry, 0);
    let command = "[Console]::OutputEncoding=[System.Text.Encoding]::UTF8; \
                   Get-Content -Wait -Tail 200 -Encoding UTF8 -Path 'C:\\logs\\cam-stream.log'";
    assert_eq!(follow_file("C:\\logs\\cam-stream.log"), command);
    assert_eq!(w.terminal.program, "wt.exe");
    assert_eq!(
        w.terminal.args,
        vec!["-d", ".", "powershell.exe", "-NoExit", "-Command", command]
    );
    assert_eq!(w.fallback.program, "powershell.exe");
    assert_eq!(w.fallback.args, vec!["-NoExit", "-Command", command]);
    assert!(open(&None).is_none());
    assert!(open(&Some(vec![entry("other.log", Some(1))])).is_none());
}

#[test]
fn fallback_follows_a_failed_terminal() {
    assert_eq!(after_attempt(Attempt::Terminal, true), AfterAttempt::Opened);
    assert_eq!(after_attempt(Attempt::Terminal, false), AfterAttempt::TryFallback);
    assert_eq!(after_attempt(Attempt::Fallback, true), AfterAttempt::Opened);
    assert_eq!(after_attempt(Attempt::Fallback, false), AfterAttempt::Failed);
}

#[test]
fn menu_items_stand_for_commands() {
    let ids: Vec<String> =
        ["quit", "about", "view_logs", "settings", "Quit", "quit"].map(String::from).to_vec();
    assert_eq!(
        commands_for(&ids),
        vec![
            TrayCommand::Quit,
            TrayCommand::ViewLogs,
            TrayCommand::Settings,
            TrayCommand::Quit
        ]
    );
    assert_eq!(command_for(&"".to_string()), None);
    // No menu was clicked here.
    assert!(poll_commands().is_empty());
}

#[test]
fn tray_has_its_menu() {
    let tray = build();
    assert_eq!(tray.tooltip, "cam-stream 视频流服务");
    let mut items = Vec::new();
    for entry in &tray.menu {
        match entry {
            MenuEntry::Item { id, label, enabled } => {
                assert!(*enabled);
                items.push((*id, *label));
            }
            MenuEntry::Separator => items.push(("", "-")),
        }
    }
    assert_eq!(
        items,
        vec![
            ("view_logs", "查看实时日志"),
            ("settings", "设置..."),
            ("", "-"),
            ("", "-"),
            ("quit", "退出")
        ]
    );
    assert_eq!(tray.icon, make_icon());
}

#[test]
fn icon_is_drawn() {
    let icon = make_icon();
    assert_eq!(icon.len(), (ICON_SIZE * ICON_SIZE * 4) as usize);
    let at = |x: usize, y: usize| {
        let k = (y * 32 + x) * 4;
        [icon[k], icon[k + 1], icon[k + 2], icon[k + 3]]
    };
    assert_eq!(at(0, 0), [30, 60, 130, 255]);
    assert_eq!(at(16, 16), [60, 60, 70, 255]);
    assert_eq!(at(19, 16), [60, 60, 70, 255]);
    assert_eq!(at(20, 16), [30, 60, 130, 255]);
    assert_eq!(at(16, 7), [240, 240, 240, 255]);
    assert_eq!(at(7, 16), [240, 240, 240, 255]);
    assert_eq!(at(16, 27), [30, 60, 130, 255]);
}

#[test]
fn settings_open_on_the_camera_in_use() {
    let mut app = CamApp::new();
    assert!(!app.state().settings_visible && !app.state().shown_on_screen && !app.state().quitting);
    assert!(app.apply().is_empty());
    assert!(!app.apply_enabled(0));
    assert_eq!(app.on_command(TrayCommand::Settings), CommandAction::RefreshCameras);
    app.open_settings(1);
    assert_eq!(app.state().selected, Some(1));
    assert!(!app.apply_enabled(1));
    assert!(app.apply_enabled(0));
    let round = app.update(None, false, 0);
    assert_eq!(round.window, WindowMove::Show);
    assert!(round.draw && !round.cancel_close);
    assert_eq!(app.repaint_after(), Some(250));
    assert_eq!(app.update(None, false, 0).window, WindowMove::Stay);
    app.close_settings();
    assert_eq!(app.repaint_after(), None);
    let round = app.update(None, false, 0);
    assert_eq!(round.window, WindowMove::Hide);
    assert!(!round.draw);
    assert_eq!((ON_SCREEN, OFF_SCREEN), ((120, 120), (-2000, -2000)));
}

#[test]
fn closing_hides_until_quit() {
    let mut app = CamApp::new();
    app.open_settings(0);
    app.update(None, false, 0);
    let round = app.update(None, true, 0);
    assert!(round.cancel_close);
    assert_eq!(round.window, WindowMove::Hide);
    assert_eq!(app.on_command(TrayCommand::ViewLogs), CommandAction::OpenLogs);
    assert!(!app.state().quitting);
    assert_eq!(app.on_command(TrayCommand::Quit), CommandAction::CloseWindow);
    assert!(!app.update(None, true, 0).cancel_close);
    app.on_command(TrayCommand::Settings);
    assert!(app.state().quitting);
}

#[test]
fn clicked_camera_is_selected_and_applied() {
    let cams =
        list_cameras(Some(vec![Some("A".to_string()), Some("B".to_string()), Some("C".to_string())]));
    let mut app = CamApp::new();
    app.open_settings(0);
    match app.device_list(&cams, 0) {
        DeviceList::Cameras { rows, in_use } => {
            let shown: Vec<(&str, bool)> =
                rows.iter().map(|r| (r.label.as_str(), r.checked)).collect();
            assert_eq!(shown, vec![("A", true), ("B", false), ("C", false)]);
            assert_eq!(in_use, "当前使用:index = 0");
        }
        DeviceList::Empty { .. } => panic!("the list is empty"),
    }
    app.select(&cams, &vec![false, false, false]);
    assert_eq!(app.state().selected, Some(0));
    app.select(&cams, &vec![true, true, false]);
    assert_eq!(app.state().selected, Some(1));
    app.select(&cams, &vec![false, false, true]);
    assert_eq!(
        app.apply(),
        vec![ApplyStep::StoreIndex { index: 2 }, ApplyStep::SendSwitch { index: 2 }]
    );
    assert!(app.apply_enabled(0));
    app.applied(2, None, 5);
    assert!(!app.apply_enabled(2));
    let toast = app.current_toast(5 + 3 * SECOND - 1).unwrap();
    assert_eq!(toast.text, "✓ 已切换到 index=2,正在重连…");
    assert_eq!(toast.color, (40, 120, 40));
    assert!(app.current_toast(5 + 3 * SECOND).is_none());
    assert!(app.state().toast.is_none());
}

#[test]
fn failed_switch_is_shown() {
    let mut app = CamApp::new();
    app.applied(2, Some("sending on a closed channel"), 0);
    let toast = app.current_toast(1).unwrap();
    assert_eq!(toast.text, "✗ 切换失败: sending on a closed channel");
    assert_eq!(toast.color, (180, 40, 40));
}

#[test]
fn missing_cameras_are_told() {
    match CamApp::new().device_list(&vec![], 0) {
        DeviceList::Empty { title, hint } => {
            assert_eq!(title, "⚠️ 没有检测到摄像头设备");
            assert_eq!(hint, "请检查 USB 连接和 Windows 隐私设置");
        }
        DeviceList::Cameras { .. } => panic!("the list is not empty"),
    }
}

#[test]
fn backend_error_brings_the_window_up() {
    let mut app = CamApp::new();
    let round = app.update(Some("端口被占用".to_string()), false, 7);
    assert_eq!(round.window, WindowMove::Show);
    assert!(app.state().settings_visible);
    let toast = app.current_toast(8).unwrap();
    assert_eq!(toast.text, "✗ 后端错误: 端口被占用");
    assert_eq!(toast.color, (180, 40, 40));
    // A request to close in the same round puts the window away, and keeps the notice.
    let mut app = CamApp::new();
    let round = app.update(Some("x".to_string()), true, 7);
    assert_eq!(round.window, WindowMove::Stay);
    assert!(round.cancel_close && app.state().toast.is_some());
}
