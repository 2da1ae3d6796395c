//! The settings window: which camera is selected, what the window shows, and when it is
//! shown.
//!
//! The window is never made invisible. While it is not wanted it stands off the screen, so
//! that it goes on receiving events.
use vstd::prelude::*;
use vstd::string::*;

use crate::camera::CameraInfo;
use crate::clock;
use crate::text;
use crate::tray::TrayCommand;

verus! {

/// How long a notice is shown, in nanoseconds.
pub const TOAST_TIME: u128 = 3_000_000_000;

/// How soon the window is drawn again while it is shown.
pub const REPAINT_MILLIS: u64 = 250;

/// Where the window stands while it is shown, and while it is not.
pub const ON_SCREEN: (i32, i32) = (120, 120);

pub const OFF_SCREEN: (i32, i32) = (-2000, -2000);

/// A short notice in the window.
#[derive(Debug)]
pub struct Toast {
    pub text: String,
    pub is_success: bool,
    /// When the notice came up.
    pub since: u128,
}

/// A notice as it is shown.
#[derive(Debug)]
pub struct ToastView {
    pub text: String,
    /// Red, green and blue.
    pub color: (u8, u8, u8),
}

/// The state of the settings window.
#[derive(Debug)]
pub struct WindowState {
    /// Whether the window is wanted on the screen.
    pub settings_visible: bool,
    /// Whether the window stands on the screen.
    pub shown_on_screen: bool,
    /// Whether the program is ending.
    pub quitting: bool,
    /// The camera that is selected in the window. It is not used until it is applied.
    pub selected: Option<u32>,
    pub toast: Option<Toast>,
}

/// The settings window.
#[derive(Debug)]
pub struct CamApp {
    state: WindowState,
}

impl View for CamApp {
    type V = WindowState;

    closed spec fn view(&self) -> WindowState {
        self.state
    }
}

/// A step of applying the selection.
#[derive(Clone, Copy, Debug, PartialEq, Eq, Structural)]
pub enum ApplyStep {
    /// Store the index of the camera in use.
    StoreIndex { index: u32 },
    /// Send the command to switch to this camera.
    SendSwitch { index: u32 },
}

/// What a tray command asks the driver to do.
#[derive(Clone, Copy, Debug, PartialEq, Eq, Structural)]
pub enum CommandAction {
    /// Close the window, which ends the program.
    CloseWindow,
    /// Open the log viewer.
    OpenLogs,
    /// List the cameras, then open the settings.
    RefreshCameras,
}

/// What to do with the window's place on the screen.
#[derive(Clone, Copy, Debug, PartialEq, Eq, Structural)]
pub enum WindowMove {
    Stay,
    /// Move the window to `ON_SCREEN` and give it the focus.
    Show,
    /// Move the window to `OFF_SCREEN`.
    Hide,
}

/// What to do in one round of the event loop.
#[derive(Clone, Copy, Debug, PartialEq, Eq, Structural)]
pub struct RoundActions {
    /// Whether the request to close the window is turned down.
    pub cancel_close: bool,
    pub window: WindowMove,
    /// Whether the settings are drawn.
    pub draw: bool,
}

/// A camera in the window's list.
#[derive(Debug)]
pub struct Row {
    pub label: String,
    pub checked: bool,
}

/// The window's list of cameras.
#[derive(Debug)]
pub enum DeviceList {
    /// There is no camera: a title and a hint.
    Empty { title: &'static str, hint: &'static str },
    /// The cameras, and the line that tells which one is in use.
    Cameras { rows: Vec<Row>, in_use: String },
}

/// Whether a notice is still shown.
pub open spec fn is_fresh(toast: Toast, now: u128) -> bool {
    clock::passed(toast.since, now) < TOAST_TIME
}

/// The color of a notice: green for a success, red for a failure.
pub open spec fn toast_color(is_success: bool) -> (u8, u8, u8) {
    if is_success {
        (40, 120, 40)
    } else {
        (180, 40, 40)
    }
}

/// Whether a notice was raised at `now` with this text.
pub open spec fn is_toast(
    toast: Option<Toast>,
    text: Seq<char>,
    is_success: bool,
    now: u128,
) -> bool {
    toast matches Some(t) && t.text@ == text && t.is_success == is_success && t.since == now
}

/// The notice after a switch was asked for.
pub open spec fn switch_notice(index: u32, failure: Option<&str>) -> Seq<char> {
    match failure {
        None => "✓ 已切换到 index="@ + text::decimal(index as nat) + ",正在重连…"@,
        Some(reason) => "✗ 切换失败: "@ + reason@,
    }
}

/// The selection after the rows marked in `clicked` were clicked: the camera of the last of
/// them, or the selection before if there are none.
pub open spec fn selection_after(
    cams: Seq<CameraInfo>,
    clicked: Seq<bool>,
    selected: Option<u32>,
) -> Option<u32>
    decreases clicked.len(),
{
    if clicked.len() == 0 {
        selected
    } else if clicked.last() {
        Some(cams[clicked.len() - 1].index)
    } else {
        selection_after(cams, clicked.drop_last(), selected)
    }
}

/// Whether a list shows the cameras with the selected one checked.
pub open spec fn is_device_list(
    list: DeviceList,
    cams: Seq<CameraInfo>,
    selected: Option<u32>,
    in_use_index: u32,
) -> bool {
    match list {
        DeviceList::Empty { title, hint } => {
            &&& cams.len() == 0
            &&& title@ == "⚠️ 没有检测到摄像头设备"@
            &&& hint@ == "请检查 USB 连接和 Windows 隐私设置"@
        },
        DeviceList::Cameras { rows, in_use } => {
            &&& cams.len() > 0
            &&& rows@.len() == cams.len()
            &&& forall|i: int|
                0 <= i < cams.len() ==> {
                    &&& (#[trigger] rows@[i]).label@ == cams[i].name@
                    &&& rows@[i].checked == (selected == Some(cams[i].index))
                }
            &&& in_use@ == "当前使用:index = "@ + text::decimal(in_use_index as nat)
        },
    }
}

impl WindowState {
    /// The window at the start: off the screen, with nothing selected.
    pub open spec fn initial() -> WindowState {
        WindowState {
            settings_visible: false,
            shown_on_screen: false,
            quitting: false,
            selected: None,
            toast: None,
        }
    }

    /// The window after a tray command.
    pub open spec fn commanded(self, command: TrayCommand) -> WindowState {
        WindowState { quitting: self.quitting || command is Quit, ..self }
    }

    /// The window opened on the camera in use.
    pub open spec fn opened(self, in_use: u32) -> WindowState {
        WindowState { settings_visible: true, selected: Some(in_use), ..self }
    }

    /// Whether the selection can be applied: a camera is selected that is not in use.
    pub open spec fn can_apply(self, in_use: u32) -> bool {
        self.selected is Some && self.selected != Some(in_use)
    }

    /// The steps of applying the selection: the index is stored, then the command is sent.
    pub open spec fn apply_steps(self) -> Seq<ApplyStep> {
        match self.selected {
            Some(index) => seq![ApplyStep::StoreIndex { index }, ApplyStep::SendSwitch { index }],
            None => Seq::empty(),
        }
    }

    /// Whether a request to close the window is turned down. Only the program's own end
    /// closes it.
    pub open spec fn cancels(self, close_requested: bool) -> bool {
        close_requested && !self.quitting
    }

    /// Whether the window is wanted after a round. A backend error brings it up, and a
    /// request to close it puts it away.
    pub open spec fn wanted_after(self, failed: bool, close_requested: bool) -> bool {
        !self.cancels(close_requested) && (self.settings_visible || failed)
    }

    /// What to do in a round that leaves the window wanted or not: it moves only if it does
    /// not yet stand where it is wanted.
    pub open spec fn actions_for(self, wanted: bool, close_requested: bool) -> RoundActions {
        RoundActions {
            cancel_close: self.cancels(close_requested),
            window: if wanted == self.shown_on_screen {
                WindowMove::Stay
            } else if wanted {
                WindowMove::Show
            } else {
                WindowMove::Hide
            },
            draw: wanted,
        }
    }

    /// Whether a round leaves the window as `after` and asks for `actions`. The window stands
    /// where it is wanted, and the error is shown as a notice.
    pub open spec fn is_round(
        self,
        backend_error: Option<String>,
        close_requested: bool,
        now: u128,
        after: WindowState,
        actions: RoundActions,
    ) -> bool {
        let wanted = self.wanted_after(backend_error is Some, close_requested);
        &&& after == WindowState {
            settings_visible: wanted,
            shown_on_screen: wanted,
            toast: after.toast,
            ..self
        }
        &&& match backend_error {
            Some(msg) => is_toast(after.toast, "✗ 后端错误: "@ + msg@, false, now),
            None => after.toast == self.toast,
        }
        &&& actions == self.actions_for(wanted, close_requested)
    }
}

impl CamApp {
    /// The window at the start.
    pub fn new() -> (r: Self)
        ensures
            r@ == WindowState::initial(),
    {
        CamApp {
            state: WindowState {
                settings_visible: false,
                shown_on_screen: false,
                quitting: false,
                selected: None,
                toast: None,
            },
        }
    }

    /// What the window holds.
    pub fn state(&self) -> (r: &WindowState)
        ensures
            *r == self@,
    {
        &self.state
    }

    /// Takes a tray command in, and says what to do.
    pub fn on_command(&mut self, command: TrayCommand) -> (r: CommandAction)
        ensures
            final(self)@ == old(self)@.commanded(command),
            r == match command {
                TrayCommand::Quit => CommandAction::CloseWindow,
                TrayCommand::ViewLogs => CommandAction::OpenLogs,
                TrayCommand::Settings => CommandAction::RefreshCameras,
            },
    {
        match command {
            TrayCommand::Quit => {
                self.state.quitting = true;
                CommandAction::CloseWindow
            },
            TrayCommand::ViewLogs => CommandAction::OpenLogs,
            TrayCommand::Settings => CommandAction::RefreshCameras,
        }
    }

    /// Opens the window, with the camera in use selected.
    pub fn open_settings(&mut self, in_use: u32)
        ensures
            final(self)@ == old(self)@.opened(in_use),
    {
        self.state.selected = Some(in_use);
        self.state.settings_visible = true;
    }

    /// Closes the window.
    pub fn close_settings(&mut self)
        ensures
            final(self)@ == (WindowState { settings_visible: false, ..old(self)@ }),
    {
        self.state.settings_visible = false;
    }

    /// What to do to apply the selection, one step after the other; nothing, if no camera is
    /// selected.
    pub fn apply(&self) -> (r: Vec<ApplyStep>)
        ensures
            r@ == self@.apply_steps(),
    {
        let mut steps: Vec<ApplyStep> = Vec::new();
        if let Some(index) = self.state.selected {
            steps.push(ApplyStep::StoreIndex { index });
            steps.push(ApplyStep::SendSwitch { index });
        }
        assert(steps@ =~= self@.apply_steps());
        steps
    }

    /// Raises the notice on the command to switch, which was sent, or failed for a reason.
    pub fn applied(&mut self, index: u32, failure: Option<&str>, now: u128)
        ensures
            is_toast(
                final(self)@.toast,
                switch_notice(index, failure),
                failure is None,
                now,
            ),
            final(self)@ == (WindowState { toast: final(self)@.toast, ..old(self)@ }),
    {
        let mut notice: String = String::new();
        match failure {
            None => {
                notice.append("✓ 已切换到 index=");
                text::push_decimal(&mut notice, index as u64);
                notice.append(",正在重连…");
            },
            Some(reason) => {
                notice.append("✗ 切换失败: ");
                notice.append(reason);
            },
        }
        assert(notice@ =~= switch_notice(index, failure));
        self.state.toast = Some(Toast { text: notice, is_success: failure.is_none(), since: now });
    }

    /// The window's list of cameras.
    pub fn device_list(&self, cams: &Vec<CameraInfo>, in_use: u32) -> (r: DeviceList)
        ensures
            is_device_list(r, cams@, self@.selected, in_use),
    {
        if cams.len() == 0 {
            return DeviceList::Empty {
                title: "⚠️ 没有检测到摄像头设备",
                hint: "请检查 USB 连接和 Windows 隐私设置",
            };
        }
        let mut rows: Vec<Row> = Vec::new();
        let mut i: usize = 0;
        while i < cams.len()
            invariant
                i <= cams.len(),
                rows@.len() == i,
                forall|k: int|
                    0 <= k < i ==> {
                        &&& (#[trigger] rows@[k]).label@ == cams@[k].name@
                        &&& rows@[k].checked == (self@.selected == Some(cams@[k].index))
                    },
            decreases cams.len() - i,
        {
            let checked: bool = match self.state.selected {
                Some(index) => index == cams[i].index,
                None => false,
            };
            rows.push(Row { label: cams[i].name.clone(), checked });
            i += 1;
        }
        let mut line: String = "当前使用:index = ".to_owned();
        text::push_decimal(&mut line, in_use as u64);
        DeviceList::Cameras { rows, in_use: line }
    }

    /// Takes in which rows of the list were clicked.
    pub fn select(&mut self, cams: &Vec<CameraInfo>, clicked: &Vec<bool>)
        requires
            cams@.len() == clicked@.len(),
        ensures
            final(self)@ == (WindowState {
                selected: selection_after(cams@, clicked@, old(self)@.selected),
                ..old(self)@
            }),
    {
        let mut selected: Option<u32> = self.state.selected;
        let mut i: usize = 0;
        while i < clicked.len()
            invariant
                i <= clicked.len(),
                cams@.len() == clicked@.len(),
                selected == selection_after(cams@, clicked@.take(i as int), self@.selected),
            decreases clicked.len() - i,
        {
            assert(clicked@.take(i + 1).drop_last() =~= clicked@.take(i as int));
            if clicked[i] {
                selected = Some(cams[i].index);
            }
            i += 1;
        }
        assert(clicked@.take(i as int) =~= clicked@);
        self.state.selected = selected;
    }

    /// Whether the selection can be applied.
    pub fn apply_enabled(&self, in_use: u32) -> (r: bool)
        ensures
            r == self@.can_apply(in_use),
    {
        match self.state.selected {
            Some(index) => index != in_use,
            None => false,
        }
    }

    /// The notice to show, if any. One whose time is over is dropped.
    pub fn current_toast(&mut self, now: u128) -> (r: Option<ToastView>)
        ensures
            match old(self)@.toast {
                Some(toast) if is_fresh(toast, now) => {
                    &&& r matches Some(view) && view.text@ == toast.text@ && view.color
                        == toast_color(toast.is_success)
                    &&& final(self)@ == old(self)@
                },
                _ => {
                    &&& r is None
                    &&& final(self)@ == (WindowState { toast: None, ..old(self)@ })
                },
            },
    {
        if let Some(toast) = &self.state.toast {
            if clock::elapsed(toast.since, now) < TOAST_TIME {
                let color: (u8, u8, u8) = if toast.is_success {
                    (40, 120, 40)
                } else {
                    (180, 40, 40)
                };
                return Some(ToastView { text: toast.text.clone(), color });
            }
        }
        self.state.toast = None;
        None
    }

    /// One round of the event loop, after the tray commands: takes in the error with which
    /// the backend ended, if it has, and whether the window was asked to close.
    pub fn update(&mut self, backend_error: Option<String>, close_requested: bool, now: u128) -> (r:
        RoundActions)
        ensures
            old(self)@.is_round(backend_error, close_requested, now, final(self)@, r),
    {
        if let Some(msg) = backend_error {
            let mut notice: String = "✗ 后端错误: ".to_owned();
            notice.append(msg.as_str());
            self.state.toast = Some(Toast { text: notice, is_success: false, since: now });
            self.state.settings_visible = true;
        }
        let cancel_close: bool = close_requested && !self.state.quitting;
        if cancel_close {
            self.state.settings_visible = false;
        }
        let window: WindowMove = if self.state.settings_visible == self.state.shown_on_screen {
            WindowMove::Stay
        } else if self.state.settings_visible {
            WindowMove::Show
        } else {
            WindowMove::Hide
        };
        self.state.shown_on_screen = self.state.settings_visible;
        RoundActions { cancel_close, window, draw: self.state.settings_visible }
    }

    /// How soon to draw the window again, if it is shown.
    pub fn repaint_after(&self) -> (r: Option<u64>)
        ensures
            r == if self@.settings_visible {
                Some(REPAINT_MILLIS)
            } else {
                None
            },
    {
        if self.state.settings_visible {
            Some(REPAINT_MILLIS)
        } else {
            None
        }
    }
}

/// After a round the window stands where it is wanted, and it is not moved again until that
/// changes: a round in which nothing happens changes nothing.
pub proof fn window_moves_once(
    app: WindowState,
    backend_error: Option<String>,
    close_requested: bool,
    now: u128,
    after: WindowState,
    actions: RoundActions,
    later: u128,
    settled: WindowState,
    then: RoundActions,
)
    requires
        app.is_round(backend_error, close_requested, now, after, actions),
        after.is_round(None, false, later, settled, then),
    ensures
        after.shown_on_screen == after.settings_visible,
        settled == after,
        then.window is Stay,
        !then.cancel_close,
{
}

/// Closing the window puts it away and leaves the program running, unless the program was
/// told to quit.
pub proof fn closing_keeps_the_program(
    app: WindowState,
    backend_error: Option<String>,
    now: u128,
    after: WindowState,
    actions: RoundActions,
)
    requires
        !app.quitting,
        app.is_round(backend_error, true, now, after, actions),
    ensures
        actions.cancel_close,
        !after.settings_visible,
        !after.shown_on_screen,
        !after.quitting,
{
}

/// Once the program was told to quit, no further command and no round takes that back, and
/// no round turns a request to close the window down.
pub proof fn quitting_is_not_undone(
    app: WindowState,
    command: TrayCommand,
    backend_error: Option<String>,
    close_requested: bool,
    now: u128,
    after: WindowState,
    actions: RoundActions,
)
    requires
        app.quitting || command is Quit,
        app.commanded(command).is_round(backend_error, close_requested, now, after, actions),
    ensures
        !actions.cancel_close,
        after.quitting,
{
}

/// An error of the backend brings the window up with a notice that tells it.
pub proof fn backend_error_is_shown(
    app: WindowState,
    msg: String,
    now: u128,
    after: WindowState,
    actions: RoundActions,
    seen: u128,
)
    requires
        app.is_round(Some(msg), false, now, after, actions),
        now <= seen < now + TOAST_TIME,
    ensures
        after.shown_on_screen,
        actions.draw,
        after.toast matches Some(toast) && is_fresh(toast, seen) && !toast.is_success && toast.text@
            == "✗ 后端错误: "@ + msg@,
{
}

/// A notice is shown for its time and no longer.
pub proof fn toast_is_shown_for_its_time(toast: Toast, now: u128)
    requires
        toast.since <= now,
    ensures
        is_fresh(toast, now) <==> now < toast.since + TOAST_TIME,
{
}

/// There is nothing to apply while the camera in use is selected: not when the window was
/// just opened, and not once the selection was put in use.
pub proof fn camera_in_use_is_not_applied(app: WindowState, in_use: u32)
    ensures
        !app.opened(in_use).can_apply(in_use),
        app.selected matches Some(index) ==> !app.can_apply(index),
{
}

/// The camera in use after some steps were carried out.
pub open spec fn in_use_after(in_use: u32, steps: Seq<ApplyStep>) -> u32
    decreases steps.len(),
{
    if steps.len() == 0 {
        in_use
    } else {
        match steps.last() {
            ApplyStep::StoreIndex { index } => index,
            ApplyStep::SendSwitch { .. } => in_use_after(in_use, steps.drop_last()),
        }
    }
}

/// The commands to switch that were sent in the course of some steps.
pub open spec fn commands_sent(steps: Seq<ApplyStep>) -> Seq<u32>
    decreases steps.len(),
{
    if steps.len() == 0 {
        Seq::empty()
    } else {
        match steps.last() {
            ApplyStep::StoreIndex { .. } => commands_sent(steps.drop_last()),
            ApplyStep::SendSwitch { index } => commands_sent(steps.drop_last()).push(index),
        }
    }
}

/// Applying puts the selected camera in use and sends one command, which names it. At no
/// moment has the command gone out while another camera is still in use, so that whoever
/// gets the command finds the camera it names. Without a selection nothing is done.
pub proof fn index_is_stored_before_the_command(app: WindowState, in_use: u32, done: int)
    requires
        0 <= done <= app.apply_steps().len(),
    ensures
        match app.selected {
            Some(index) => {
                &&& in_use_after(in_use, app.apply_steps()) == index
                &&& commands_sent(app.apply_steps()) == seq![index]
                &&& commands_sent(app.apply_steps().take(done)).len() > 0 ==> in_use_after(
                    in_use,
                    app.apply_steps().take(done),
                ) == index
            },
            None => {
                &&& in_use_after(in_use, app.apply_steps()) == in_use
                &&& commands_sent(app.apply_steps()) == Seq::<u32>::empty()
            },
        },
{
    reveal_with_fuel(in_use_after, 3);
    reveal_with_fuel(commands_sent, 3);
    let steps = app.apply_steps();
    if let Some(index) = app.selected {
        let prefix = steps.take(done);
        if done == 2 {
            assert(prefix =~= steps);
        }
        assert(steps.drop_last() =~= seq![ApplyStep::StoreIndex { index }]);
        assert(commands_sent(steps.drop_last()) =~= Seq::<u32>::empty());
        assert(commands_sent(steps) =~= seq![index]);
    }
}

/// A click on a row selects the camera of that row, if no later row was clicked.
pub proof fn click_selects_its_camera(
    cams: Seq<CameraInfo>,
    clicked: Seq<bool>,
    selected: Option<u32>,
    k: int,
)
    requires
        cams.len() == clicked.len(),
        0 <= k < clicked.len(),
        clicked[k],
        forall|j: int| k < j < clicked.len() ==> !#[trigger] clicked[j],
    ensures
        selection_after(cams, clicked, selected) == Some(cams[k].index),
    decreases clicked.len(),
{
    if k < clicked.len() - 1 {
        assert(!clicked.last());
        lemma_selection_needs_a_prefix(cams, clicked.drop_last(), selected);
        click_selects_its_camera(cams.drop_last(), clicked.drop_last(), selected, k);
    }
}

/// The selection depends on no more cameras than there are rows.
proof fn lemma_selection_needs_a_prefix(
    cams: Seq<CameraInfo>,
    clicked: Seq<bool>,
    selected: Option<u32>,
)
    requires
        clicked.len() < cams.len(),
    ensures
        selection_after(cams, clicked, selected) == selection_after(
            cams.drop_last(),
            clicked,
            selected,
        ),
    decreases clicked.len(),
{
    if clicked.len() > 0 {
        lemma_selection_needs_a_prefix(cams, clicked.drop_last(), selected);
    }
}

/// Without a click the selection stays.
pub proof fn no_click_keeps_the_selection(
    cams: Seq<CameraInfo>,
    clicked: Seq<bool>,
    selected: Option<u32>,
)
    requires
        forall|j: int| 0 <= j < clicked.len() ==> !#[trigger] clicked[j],
    ensures
        selection_after(cams, clicked, selected) == selected,
    decreases clicked.len(),
{
    if clicked.len() > 0 {
        assert(!clicked.last());
        no_click_keeps_the_selection(cams, clicked.drop_last(), selected);
    }
}

/// At most one row is checked where the cameras have different indices.
pub proof fn one_row_is_checked(
    rows: Vec<Row>,
    in_use: String,
    cams: Seq<CameraInfo>,
    selected: Option<u32>,
    in_use_index: u32,
    a: int,
    b: int,
)
    requires
        is_device_list(DeviceList::Cameras { rows, in_use }, cams, selected, in_use_index),
        forall|i: int, j: int|
            0 <= i < j < cams.len() ==> (#[trigger] cams[i]).index != (#[trigger] cams[j]).index,
        0 <= a < cams.len(),
        0 <= b < cams.len(),
        rows@[a].checked,
        rows@[b].checked,
    ensures
        a == b,
{
    assert(cams[a].index == cams[b].index);
}

/// Something that happens to the window.
pub enum WindowChange {
    /// A tray command.
    Command { command: TrayCommand },
    /// The settings are opened on the camera in use.
    Open { in_use: u32 },
    /// The settings are closed.
    Close,
    /// A camera is selected, or none.
    Select { selected: Option<u32> },
    /// A notice comes up or goes.
    Notice { toast: Option<Toast> },
    /// A round of the event loop.
    Round {
        backend_error: Option<String>,
        close_requested: bool,
        now: u128,
        actions: RoundActions,
    },
}

impl WindowState {
    /// Whether a change leaves the window as `after`.
    pub open spec fn becomes(self, change: WindowChange, after: WindowState) -> bool {
        match change {
            WindowChange::Command { command } => after == self.commanded(command),
            WindowChange::Open { in_use } => after == self.opened(in_use),
            WindowChange::Close => after == (WindowState { settings_visible: false, ..self }),
            WindowChange::Select { selected } => after == (WindowState { selected, ..self }),
            WindowChange::Notice { toast } => after == (WindowState { toast, ..self }),
            WindowChange::Round { backend_error, close_requested, now, actions } => self.is_round(
                backend_error,
                close_requested,
                now,
                after,
                actions,
            ),
        }
    }
}

/// Whether `states` are those of a window from its start, in the course of some changes.
pub open spec fn is_course(states: Seq<WindowState>, changes: Seq<WindowChange>) -> bool {
    &&& states.len() == changes.len() + 1
    &&& states[0] == WindowState::initial()
    &&& forall|i: int|
        0 <= i < changes.len() ==> states[i].becomes(#[trigger] changes[i], states[i + 1])
}

/// Only the command to quit makes the program end: whatever has happened since the start, the
/// program is ending exactly if that command was among it.
pub proof fn only_quit_quits(states: Seq<WindowState>, changes: Seq<WindowChange>, i: int)
    requires
        is_course(states, changes),
        0 <= i < states.len(),
    ensures
        states[i].quitting <==> exists|k: int|
            0 <= k < i && #[trigger] changes[k] == (WindowChange::Command {
                command: TrayCommand::Quit,
            }),
    decreases i,
{
    if i > 0 {
        only_quit_quits(states, changes, i - 1);
        assert(states[i - 1].becomes(changes[i - 1], states[i]));
        if changes[i - 1] == (WindowChange::Command { command: TrayCommand::Quit }) {
            assert(states[i].quitting);
        } else {
            assert(states[i].quitting == states[i - 1].quitting);
        }
    }
}

/// As long as the command to quit has not come, a request to close the window is turned down:
/// the window is put away, off the screen, and the program goes on.
pub proof fn window_is_put_away_until_quit(
    states: Seq<WindowState>,
    changes: Seq<WindowChange>,
    i: int,
    backend_error: Option<String>,
    now: u128,
    actions: RoundActions,
)
    requires
        is_course(states, changes),
        0 <= i < changes.len(),
        changes[i] == (WindowChange::Round { backend_error, close_requested: true, now, actions }),
        forall|k: int|
            0 <= k < i ==> #[trigger] changes[k] != (WindowChange::Command {
                command: TrayCommand::Quit,
            }),
    ensures
        actions.cancel_close,
        !actions.draw,
        actions.window == if states[i].shown_on_screen {
            WindowMove::Hide
        } else {
            WindowMove::Stay
        },
        !states[i + 1].settings_visible,
        !states[i + 1].shown_on_screen,
        !states[i + 1].quitting,
{
    only_quit_quits(states, changes, i);
    assert(states[i].becomes(changes[i], states[i + 1]));
}

/// At its start the window stands off the screen and is not wanted there, nothing is selected,
/// there is no notice, and the program is not ending.
pub proof fn window_starts_out_of_sight(app: CamApp)
    requires
        call_ensures(CamApp::new, (), app),
    ensures
        !app@.settings_visible && !app@.shown_on_screen && !app@.quitting,
        app@.selected is None && app@.toast is None,
        app@ == WindowState::initial(),
{
}

/// Each tray command asks for its own thing, and none but the one to quit does anything to the
/// window.
pub proof fn commands_are_taken_in(app: &mut CamApp, command: TrayCommand, r: CommandAction)
    requires
        call_ensures(CamApp::on_command, (app, command), r),
    ensures
        r is CloseWindow <==> command is Quit,
        r is OpenLogs <==> command is ViewLogs,
        r is RefreshCameras <==> command is Settings,
        !(command is Quit) ==> final(app)@ == old(app)@,
        command is Quit ==> final(app)@ == (WindowState { quitting: true, ..old(app)@ }),
        old(app)@.becomes(WindowChange::Command { command }, final(app)@),
{
}

/// Opening the settings selects the camera in use and makes the window wanted, and closing them
/// makes it unwanted; nothing else changes.
pub proof fn settings_open_and_close(
    app: &mut CamApp,
    in_use: u32,
    other: &mut CamApp,
)
    requires
        call_ensures(CamApp::open_settings, (app, in_use), ()),
        call_ensures(CamApp::close_settings, (other,), ()),
    ensures
        final(app)@.settings_visible,
        final(app)@.selected == Some(in_use),
        final(app)@ == (WindowState {
            settings_visible: true,
            selected: Some(in_use),
            ..old(app)@
        }),
        old(app)@.becomes(WindowChange::Open { in_use }, final(app)@),
        !final(other)@.settings_visible,
        final(other)@ == (WindowState { settings_visible: false, ..old(other)@ }),
        old(other)@.becomes(WindowChange::Close, final(other)@),
{
}

/// A click selects the camera of the last row that was clicked; without a click the selection
/// stays, and nothing else changes either way.
pub proof fn last_click_selects(
    app: &mut CamApp,
    cams: Vec<CameraInfo>,
    clicked: Vec<bool>,
    k: int,
)
    requires
        cams@.len() == clicked@.len(),
        call_ensures(CamApp::select, (app, &cams, &clicked), ()),
        -1 <= k < clicked@.len(),
        k >= 0 ==> clicked@[k],
        forall|j: int| k < j < clicked@.len() ==> !#[trigger] clicked@[j],
    ensures
        final(app)@.selected == if k >= 0 {
            Some(cams@[k].index)
        } else {
            old(app)@.selected
        },
        final(app)@ == (WindowState { selected: final(app)@.selected, ..old(app)@ }),
        old(app)@.becomes(
            WindowChange::Select { selected: final(app)@.selected },
            final(app)@,
        ),
{
    if k >= 0 {
        click_selects_its_camera(cams@, clicked@, old(app)@.selected, k);
    } else {
        no_click_keeps_the_selection(cams@, clicked@, old(app)@.selected);
    }
}

/// The selection can be applied exactly when there is one and it is not the camera in use.
/// Applying it stores its index, then sends the command; without one there is nothing to do.
pub proof fn selection_is_applied(
    app: CamApp,
    in_use: u32,
    enabled: bool,
    steps: Vec<ApplyStep>,
)
    requires
        call_ensures(CamApp::apply_enabled, (&app, in_use), enabled),
        call_ensures(CamApp::apply, (&app,), steps),
    ensures
        enabled <==> (app@.selected matches Some(index) && index != in_use),
        app@.selected is None ==> steps@.len() == 0,
        app@.selected matches Some(index) ==> {
            &&& steps@.len() == 2
            &&& steps@[0] == (ApplyStep::StoreIndex { index })
            &&& steps@[1] == (ApplyStep::SendSwitch { index })
        },
{
}

/// Once the command to switch was sent, a notice names the camera in decimal, as a success; if
/// it could not be sent, the notice ends with the reason, as a failure. It dates from then, and
/// nothing else changes.
pub proof fn switch_is_told(app: &mut CamApp, index: u32, failure: Option<&str>, now: u128)
    requires
        call_ensures(CamApp::applied, (app, index, failure, now), ()),
    ensures
        final(app)@.toast matches Some(toast) && {
            &&& toast.since == now
            &&& toast.is_success <==> failure is None
            &&& failure is None ==> toast.text@ == "✓ 已切换到 index="@ + text::decimal(
                index as nat,
            ) + ",正在重连…"@
            &&& failure matches Some(reason) ==> toast.text@ == "✗ 切换失败: "@ + reason@
        },
        final(app)@ == (WindowState { toast: final(app)@.toast, ..old(app)@ }),
        old(app)@.becomes(WindowChange::Notice { toast: final(app)@.toast }, final(app)@),
{
}

/// The list has one row for each camera, in order, under its name, with the selected camera
/// checked and no other, and says which camera is in use. Without cameras it says so.
pub proof fn list_shows_the_cameras(
    app: CamApp,
    cams: Vec<CameraInfo>,
    in_use: u32,
    r: DeviceList,
)
    requires
        call_ensures(CamApp::device_list, (&app, &cams, in_use), r),
    ensures
        r is Empty <==> cams@.len() == 0,
        r matches DeviceList::Empty { title, hint } ==> title@ == "⚠️ 没有检测到摄像头设备"@
            && hint@ == "请检查 USB 连接和 Windows 隐私设置"@,
        r matches DeviceList::Cameras { rows, in_use: line } ==> {
            &&& rows@.len() == cams@.len()
            &&& forall|i: int|
                0 <= i < cams@.len() ==> (#[trigger] rows@[i]).label@ == cams@[i].name@
                    && (rows@[i].checked <==> app@.selected == Some(cams@[i].index))
            &&& line@ == "当前使用:index = "@ + text::decimal(in_use as nat)
        },
{
}

/// A notice is shown as it is for three seconds from when it came up, green if it tells of a
/// success and red if not, and stays as long; after that it is gone, and nothing is shown.
pub proof fn notice_is_shown_for_three_seconds(
    app: &mut CamApp,
    now: u128,
    r: Option<ToastView>,
)
    requires
        call_ensures(CamApp::current_toast, (app, now), r),
    ensures
        old(app)@.toast is None ==> r is None && final(app)@ == old(app)@,
        old(app)@.toast matches Some(toast) ==> if now - toast.since < 3_000_000_000 {
            &&& r matches Some(view) && view.text@ == toast.text@ && view.color
                == if toast.is_success {
                (40u8, 120u8, 40u8)
            } else {
                (180u8, 40u8, 40u8)
            }
            &&& final(app)@ == old(app)@
        } else {
            &&& r is None
            &&& final(app)@ == (WindowState { toast: None, ..old(app)@ })
        },
        old(app)@.becomes(WindowChange::Notice { toast: final(app)@.toast }, final(app)@),
{
}

/// What a round makes of the window. It is wanted afterwards if it was, or if the backend has
/// failed, unless it was asked to close and the program is not ending; it then stands where it
/// is wanted, is moved only if it did not, and is drawn only on the screen. An error comes up as
/// a notice. Nothing else changes.
pub proof fn round_puts_the_window_where_it_is_wanted(
    app: &mut CamApp,
    backend_error: Option<String>,
    close_requested: bool,
    now: u128,
    r: RoundActions,
)
    requires
        call_ensures(CamApp::update, (app, backend_error, close_requested, now), r),
    ensures
        ({
            let before = old(app)@;
            let after = final(app)@;
            let turned_down = close_requested && !before.quitting;
            let wanted = !turned_down && (before.settings_visible || backend_error is Some);
            &&& r.cancel_close <==> turned_down
            &&& after.settings_visible <==> wanted
            &&& after.shown_on_screen <==> wanted
            &&& r.draw <==> wanted
            &&& r.window is Show <==> wanted && !before.shown_on_screen
            &&& r.window is Hide <==> !wanted && before.shown_on_screen
            &&& after.quitting == before.quitting
            &&& after.selected == before.selected
            &&& backend_error is None ==> after.toast == before.toast
            &&& backend_error matches Some(msg) ==> (after.toast matches Some(toast)
                && toast.text@ == "✗ 后端错误: "@ + msg@ && !toast.is_success && toast.since == now)
        }),
        old(app)@.becomes(
            WindowChange::Round { backend_error, close_requested, now, actions: r },
            final(app)@,
        ),
{
}

/// While the window is wanted it is drawn again every 250 ms, and otherwise only when something
/// happens.
pub proof fn wanted_window_is_drawn_again(app: CamApp, r: Option<u64>)
    requires
        call_ensures(CamApp::repaint_after, (&app,), r),
    ensures
        app@.settings_visible ==> r == Some(250u64),
        !app@.settings_visible ==> r is None,
{
}

} // verus!
