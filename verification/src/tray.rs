//! The tray icon: its picture, its menu, and the commands that its menu items stand for.
use muda::MenuEvent;
use vstd::prelude::*;
use vstd::string::*;

use crate::text;

verus! {

/// What the user asks for through the tray menu.
#[derive(Debug, Clone, Copy, PartialEq, Eq, Structural)]
pub enum TrayCommand {
    /// Show the log as it is written.
    ViewLogs,
    /// Show the window in which a camera is selected.
    Settings,
    /// End the program.
    Quit,
}

/// An entry of the tray menu.
#[derive(Debug)]
pub enum MenuEntry {
    /// An item that can be clicked, if it is enabled.
    Item { id: &'static str, label: &'static str, enabled: bool },
    Separator,
}

/// The width and the height of the tray icon's picture.
pub const ICON_SIZE: u32 = 32;

/// The tray icon.
#[derive(Debug)]
pub struct Tray {
    pub menu: Vec<MenuEntry>,
    pub tooltip: &'static str,
    /// The picture, four bytes per pixel: red, green, blue and opacity, row by row.
    pub icon: Vec<u8>,
}

impl TrayCommand {
    /// The id of the menu item that stands for the command.
    pub open spec fn id(self) -> Seq<char> {
        match self {
            TrayCommand::ViewLogs => "view_logs"@,
            TrayCommand::Settings => "settings"@,
            TrayCommand::Quit => "quit"@,
        }
    }
}

/// The command that a menu item stands for, if any.
pub open spec fn command_of(id: Seq<char>) -> Option<TrayCommand> {
    if id == "view_logs"@ {
        Some(TrayCommand::ViewLogs)
    } else if id == "settings"@ {
        Some(TrayCommand::Settings)
    } else if id == "quit"@ {
        Some(TrayCommand::Quit)
    } else {
        None
    }
}

/// The commands that a sequence of clicked menu items stands for, in the order of the
/// clicks. An item that stands for no command is passed over.
pub open spec fn commands_of(ids: Seq<Seq<char>>) -> Seq<TrayCommand>
    decreases ids.len(),
{
    if ids.len() == 0 {
        Seq::empty()
    } else {
        match command_of(ids.last()) {
            Some(command) => commands_of(ids.drop_last()).push(command),
            None => commands_of(ids.drop_last()),
        }
    }
}

/// The command that a menu item stands for, if any.
pub fn command_for(id: &String) -> (r: Option<TrayCommand>)
    ensures
        r == command_of(id@),
{
    if *id == "view_logs".to_owned() {
        Some(TrayCommand::ViewLogs)
    } else if *id == "settings".to_owned() {
        Some(TrayCommand::Settings)
    } else if *id == "quit".to_owned() {
        Some(TrayCommand::Quit)
    } else {
        None
    }
}

/// The commands that a sequence of clicked menu items stands for.
pub fn commands_for(ids: &Vec<String>) -> (r: Vec<TrayCommand>)
    ensures
        r@ == commands_of(text::texts(ids@)),
{
    let mut out: Vec<TrayCommand> = Vec::new();
    let mut i: usize = 0;
    while i < ids.len()
        invariant
            i <= ids.len(),
            out@ == commands_of(text::texts(ids@).take(i as int)),
        decreases ids.len() - i,
    {
        let ghost more = text::texts(ids@).take(i + 1);
        assert(more.drop_last() =~= text::texts(ids@).take(i as int));
        assert(more.last() == ids@[i as int]@);
        if let Some(command) = command_for(&ids[i]) {
            out.push(command);
        }
        i += 1;
    }
    assert(text::texts(ids@).take(i as int) =~= text::texts(ids@));
    out
}

/// Takes the pending events out of `muda::MenuEvent::receiver` and gives their menu ids, the
/// oldest first. What is pending depends on what the user has clicked; nothing is claimed
/// of it.
#[verifier::external_body]
pub fn pending_ids() -> (r: Vec<String>) {
    MenuEvent::receiver().try_iter().map(|event| event.id.0).collect()
}

/// Takes all pending menu events, and gives the commands that they stand for, in the order of
/// the clicks.
pub fn poll_commands() -> (r: Vec<TrayCommand>)
    ensures
        exists|ids: Vec<String>|
            #[trigger] call_ensures(pending_ids, (), ids) && r@ == commands_of(text::texts(ids@)),
{
    let ids: Vec<String> = pending_ids();
    commands_for(&ids)
}

/// The four bytes of the pixel in column `x` and row `y` of the icon: on a dark blue ground,
/// a white ring around a dark dot in the middle.
pub open spec fn icon_pixel(x: int, y: int) -> Seq<u8> {
    let d = (x - 16) * (x - 16) + (y - 16) * (y - 16);
    if d <= 9 {
        seq![60u8, 60u8, 70u8, 255u8]
    } else if 70 <= d <= 110 {
        seq![240u8, 240u8, 240u8, 255u8]
    } else {
        seq![30u8, 60u8, 130u8, 255u8]
    }
}

/// The icon's picture, row by row.
pub open spec fn icon_picture() -> Seq<u8> {
    Seq::new(
        (ICON_SIZE * ICON_SIZE * 4) as nat,
        |k: int| icon_pixel(k / 4 % (ICON_SIZE as int), k / 4 / (ICON_SIZE as int))[k % 4],
    )
}

/// The pixel in column `x` and row `y` of the icon.
fn pixel(x: u32, y: u32) -> (r: [u8; 4])
    requires
        x < ICON_SIZE,
        y < ICON_SIZE,
    ensures
        r@ == icon_pixel(x as int, y as int),
{
    let dx: i32 = x as i32 - 16;
    let dy: i32 = y as i32 - 16;
    assert(0 <= dx * dx <= 256) by (nonlinear_arith)
        requires
            -16 <= dx <= 16,
    ;
    assert(0 <= dy * dy <= 256) by (nonlinear_arith)
        requires
            -16 <= dy <= 16,
    ;
    let d: i32 = dx * dx + dy * dy;
    let r: [u8; 4] = if d <= 9 {
        [60, 60, 70, 255]
    } else if 70 <= d && d <= 110 {
        [240, 240, 240, 255]
    } else {
        [30, 60, 130, 255]
    };
    assert(r@ =~= icon_pixel(x as int, y as int));
    r
}

/// Draws the icon.
pub fn make_icon() -> (r: Vec<u8>)
    ensures
        r@ == icon_picture(),
{
    let mut rgba: Vec<u8> = Vec::with_capacity(4096);
    let mut y: u32 = 0;
    while y < ICON_SIZE
        invariant
            y <= ICON_SIZE,
            rgba@ == icon_picture().take(y * 128),
        decreases ICON_SIZE - y,
    {
        let mut x: u32 = 0;
        while x < ICON_SIZE
            invariant
                x <= ICON_SIZE,
                y < ICON_SIZE,
                rgba@ == icon_picture().take(y * 128 + x * 4),
            decreases ICON_SIZE - x,
        {
            let px: [u8; 4] = pixel(x, y);
            rgba.push(px[0]);
            rgba.push(px[1]);
            rgba.push(px[2]);
            rgba.push(px[3]);
            x += 1;
            assert(rgba@ =~= icon_picture().take(y * 128 + x * 4));
        }
        y += 1;
    }
    assert(icon_picture().take(y * 128) =~= icon_picture());
    rgba
}

/// Whether an entry is the enabled item with this id and label.
pub open spec fn is_item(entry: MenuEntry, id: Seq<char>, label: Seq<char>) -> bool {
    entry matches MenuEntry::Item { id: i, label: l, enabled } && i@ == id && l@ == label && enabled
}

/// The entries of the tray menu, from the top.
pub open spec fn is_menu(menu: Seq<MenuEntry>) -> bool {
    &&& menu.len() == 5
    &&& is_item(menu[0], TrayCommand::ViewLogs.id(), "查看实时日志"@)
    &&& is_item(menu[1], TrayCommand::Settings.id(), "设置..."@)
    &&& menu[2] is Separator
    &&& menu[3] is Separator
    &&& is_item(menu[4], TrayCommand::Quit.id(), "退出"@)
}

/// The tray icon with its menu.
pub fn build() -> (r: Tray)
    ensures
        is_menu(r.menu@),
        r.tooltip@ == "cam-stream 视频流服务"@,
        r.icon@ == icon_picture(),
{
    let mut menu: Vec<MenuEntry> = Vec::new();
    menu.push(MenuEntry::Item { id: "view_logs", label: "查看实时日志", enabled: true });
    menu.push(MenuEntry::Item { id: "settings", label: "设置...", enabled: true });
    menu.push(MenuEntry::Separator);
    menu.push(MenuEntry::Separator);
    menu.push(MenuEntry::Item { id: "quit", label: "退出", enabled: true });
    Tray { menu, tooltip: "cam-stream 视频流服务", icon: make_icon() }
}

/// Clicking the menu item of a command gives that command and no other.
pub proof fn item_gives_its_command(command: TrayCommand)
    ensures
        command_of(command.id()) == Some(command),
{
    reveal_strlit("view_logs");
    reveal_strlit("settings");
    reveal_strlit("quit");
    assert("view_logs"@.len() == 9 && "settings"@.len() == 8 && "quit"@.len() == 4);
}

/// Every command has its enabled item in the menu, and every item is enabled and stands for a
/// command.
pub proof fn menu_offers_the_commands(menu: Seq<MenuEntry>, command: TrayCommand, i: int)
    requires
        is_menu(menu),
        0 <= i < menu.len(),
    ensures
        exists|k: int|
            0 <= k < menu.len() && (#[trigger] menu[k] matches MenuEntry::Item { id, enabled, .. }
                && id@ == command.id() && enabled),
        menu[i] matches MenuEntry::Item { id, enabled, .. } ==> enabled && command_of(id@) is Some,
{
    item_gives_its_command(TrayCommand::ViewLogs);
    item_gives_its_command(TrayCommand::Settings);
    item_gives_its_command(TrayCommand::Quit);
    let k: int = match command {
        TrayCommand::ViewLogs => 0,
        TrayCommand::Settings => 1,
        TrayCommand::Quit => 4,
    };
    assert(menu[k] is Item);
}

/// Each click on a command's item gives one command, in the order of the clicks.
pub proof fn clicks_keep_their_order(clicked: Seq<TrayCommand>)
    ensures
        commands_of(clicked.map_values(|c: TrayCommand| c.id())) == clicked,
    decreases clicked.len(),
{
    let ids = clicked.map_values(|c: TrayCommand| c.id());
    if clicked.len() == 0 {
        assert(ids =~= Seq::empty());
        assert(commands_of(ids) =~= clicked);
    } else {
        clicks_keep_their_order(clicked.drop_last());
        item_gives_its_command(clicked.last());
        assert(ids.drop_last() =~= clicked.drop_last().map_values(|c: TrayCommand| c.id()));
        assert(commands_of(ids) =~= clicked);
    }
}

/// The icon's picture has the four bytes of each pixel in its place, as a picture of the
/// icon's width and height has to.
pub proof fn icon_is_complete(x: int, y: int, channel: int)
    requires
        0 <= x < ICON_SIZE,
        0 <= y < ICON_SIZE,
        0 <= channel < 4,
    ensures
        icon_picture().len() == ICON_SIZE * ICON_SIZE * 4,
        icon_picture()[(y * ICON_SIZE + x) * 4 + channel] == icon_pixel(x, y)[channel],
{
}

/// A menu item gives a command exactly if its id is one of the three, and then its own.
pub proof fn ids_give_commands(id: String, r: Option<TrayCommand>)
    requires
        call_ensures(command_for, (&id,), r),
    ensures
        r == Some(TrayCommand::ViewLogs) <==> id@ == "view_logs"@,
        r == Some(TrayCommand::Settings) <==> id@ == "settings"@,
        r == Some(TrayCommand::Quit) <==> id@ == "quit"@,
{
    item_gives_its_command(TrayCommand::ViewLogs);
    item_gives_its_command(TrayCommand::Settings);
    item_gives_its_command(TrayCommand::Quit);
}

/// The commands of some clicks are those of the clicks taken one by one, in order; a click that
/// stands for no command adds none.
pub proof fn clicks_are_taken_one_by_one(
    ids: Vec<String>,
    more: Vec<String>,
    last: String,
    before: Vec<TrayCommand>,
    after: Vec<TrayCommand>,
    command: Option<TrayCommand>,
)
    requires
        more@ == ids@.push(last),
        call_ensures(commands_for, (&ids,), before),
        call_ensures(commands_for, (&more,), after),
        call_ensures(command_for, (&last,), command),
    ensures
        ids@.len() == 0 ==> before@.len() == 0,
        after@ == match command {
            Some(c) => before@.push(c),
            None => before@,
        },
{
    assert(text::texts(more@).drop_last() =~= text::texts(ids@));
    assert(text::texts(more@).last() == last@);
}

/// Whatever was clicked gives the commands of those clicks.
pub proof fn polling_gives_the_commands(r: Vec<TrayCommand>)
    requires
        call_ensures(poll_commands, (), r),
    ensures
        exists|ids: Vec<String>| #[trigger]
            call_ensures(pending_ids, (), ids) && r@ == commands_of(text::texts(ids@)),
{
}

/// The menu offers, from the top, to view the log, to open the settings, and below two lines to
/// quit; all three can be clicked. The icon comes with its name and its picture.
pub proof fn tray_offers_its_menu(tray: Tray, icon: Vec<u8>)
    requires
        call_ensures(build, (), tray),
        call_ensures(make_icon, (), icon),
    ensures
        tray.menu@.len() == 5,
        tray.menu@[0] matches MenuEntry::Item { id, label, enabled } && id@ == "view_logs"@
            && label@ == "查看实时日志"@ && enabled,
        tray.menu@[1] matches MenuEntry::Item { id, label, enabled } && id@ == "settings"@
            && label@ == "设置..."@ && enabled,
        tray.menu@[2] is Separator,
        tray.menu@[3] is Separator,
        tray.menu@[4] matches MenuEntry::Item { id, label, enabled } && id@ == "quit"@ && label@
            == "退出"@ && enabled,
        tray.tooltip@ == "cam-stream 视频流服务"@,
        tray.icon@ == icon@,
{
}

/// The picture shows a lens, the same from all sides: what is drawn at a place depends only on how
/// far that is from the middle. Within three pixels there is the dark dot, at a squared distance
/// from 70 to 110 the white ring, and elsewhere the blue ground. All of it is opaque.
pub proof fn icon_shows_a_lens(icon: Vec<u8>, x: int, y: int)
    requires
        call_ensures(make_icon, (), icon),
        0 <= x < 32,
        0 <= y < 32,
    ensures
        icon@.len() == 4096,
        ({
            let k = (y * 32 + x) * 4;
            let dx = x - 16;
            let dy = y - 16;
            let d = dx * dx + dy * dy;
            let color = (icon@[k], icon@[k + 1], icon@[k + 2]);
            &&& d <= 9 ==> color == (60u8, 60u8, 70u8)
            &&& 70 <= d <= 110 ==> color == (240u8, 240u8, 240u8)
            &&& 9 < d < 70 || d > 110 ==> color == (30u8, 60u8, 130u8)
            &&& icon@[k + 3] == 255
        }),
{
    icon_is_complete(x, y, 0);
    icon_is_complete(x, y, 1);
    icon_is_complete(x, y, 2);
    icon_is_complete(x, y, 3);
}

} // verus!
