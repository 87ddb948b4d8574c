//! The tray menu's texts and commands, and the tray icon's pixels.

use vstd::prelude::*;
use crate::manager::RpcManager;
use crate::text::concat3;

verus! {

/// A command chosen from the tray menu.
#[derive(Debug, PartialEq, Eq, Structural)]
pub enum TrayCommand {
    TogglePause,
    ReloadConfig,
    OpenConfigDir,
    ClearCache,
    Quit,
}

/// An entry of the tray menu.
#[derive(Debug, PartialEq, Eq, Structural)]
pub enum TrayMenuItem {
    Status,
    Pause,
    Reload,
    OpenConfig,
    ClearCache,
    Quit,
}

/// The command an entry of the menu stands for; the status line stands for
/// none.
pub fn command_for(item: TrayMenuItem) -> (r: Option<TrayCommand>)
    ensures
        match item {
            TrayMenuItem::Status => r is None,
            TrayMenuItem::Pause => r == Some(TrayCommand::TogglePause),
            TrayMenuItem::Reload => r == Some(TrayCommand::ReloadConfig),
            TrayMenuItem::OpenConfig => r == Some(TrayCommand::OpenConfigDir),
            TrayMenuItem::ClearCache => r == Some(TrayCommand::ClearCache),
            TrayMenuItem::Quit => r == Some(TrayCommand::Quit),
        },
{
    match item {
        TrayMenuItem::Status => None,
        TrayMenuItem::Pause => Some(TrayCommand::TogglePause),
        TrayMenuItem::Reload => Some(TrayCommand::ReloadConfig),
        TrayMenuItem::OpenConfig => Some(TrayCommand::OpenConfigDir),
        TrayMenuItem::ClearCache => Some(TrayCommand::ClearCache),
        TrayMenuItem::Quit => Some(TrayCommand::Quit),
    }
}

/// The status line: paused, playing a game, or watching.
pub open spec fn status_line(is_paused: bool, current_game: Option<Seq<char>>) -> Seq<char> {
    if is_paused {
        "Status: Paused"@
    } else {
        match current_game {
            Some(g) => "Playing: "@ + g,
            None => "Status: Watching for Games"@,
        }
    }
}

/// The status line of the tray menu.
pub fn status_text(is_paused: bool, current_game: Option<&str>) -> (r: String)
    ensures
        r@ == status_line(
            is_paused,
            match current_game {
                Some(g) => Some(g@),
                None => None,
            },
        ),
{
    if is_paused {
        "Status: Paused".to_owned()
    } else if let Some(game) = current_game {
        let r = concat3("Playing: ", game, "");
        proof {
            reveal_strlit("");
            assert(r@ =~= "Playing: "@ + game@);
        }
        r
    } else {
        "Status: Watching for Games".to_owned()
    }
}

/// The label of the pause entry: what choosing it does.
pub fn pause_label(is_paused: bool) -> (r: &'static str)
    ensures
        r@ == if is_paused {
            "Resume Watching"@
        } else {
            "Pause Watching"@
        },
{
    if is_paused {
        "Resume Watching"
    } else {
        "Pause Watching"
    }
}

/// What the daemon loop does after a tray command.
#[derive(Debug, PartialEq, Eq, Structural)]
pub enum LoopAction {
    /// Refresh the tray's status and keep going
    UpdateStatus,
    /// Reload the configuration from disk
    ReloadConfig,
    /// Open the configuration directory
    OpenConfigDir,
    /// Clear the metadata cache
    ClearCache,
    /// Clear presence, disconnect and stop
    Shutdown,
}

/// Carry out a tray command on the manager: pausing toggles, the others are
/// handed to the loop.
pub fn on_tray_command(manager: &mut RpcManager, cmd: TrayCommand) -> (r: LoopAction)
    ensures
        match cmd {
            TrayCommand::TogglePause => r == LoopAction::UpdateStatus && final(manager).paused()
                == !old(manager).paused(),
            TrayCommand::ReloadConfig => r == LoopAction::ReloadConfig && final(manager).paused()
                == old(manager).paused(),
            TrayCommand::OpenConfigDir => r == LoopAction::OpenConfigDir && final(manager).paused()
                == old(manager).paused(),
            TrayCommand::ClearCache => r == LoopAction::ClearCache && final(manager).paused()
                == old(manager).paused(),
            TrayCommand::Quit => r == LoopAction::Shutdown && final(manager).paused()
                == old(manager).paused(),
        },
        final(manager).current() == old(manager).current(),
{
    match cmd {
        TrayCommand::TogglePause => {
            let new_state = !manager.is_paused();
            manager.set_paused(new_state);
            LoopAction::UpdateStatus
        },
        TrayCommand::ReloadConfig => LoopAction::ReloadConfig,
        TrayCommand::OpenConfigDir => LoopAction::OpenConfigDir,
        TrayCommand::ClearCache => LoopAction::ClearCache,
        TrayCommand::Quit => LoopAction::Shutdown,
    }
}

// ---------------------------------------------------------------------------
// The tray icon
// ---------------------------------------------------------------------------

/// Width and height of the tray icon, in pixels.
pub const ICON_SIZE: usize = 32;

/// Number of bytes of the icon's RGBA buffer.
pub const ICON_BYTES: usize = 4096;

/// The pixel is part of the gamepad: its body or one of its grips.
pub open spec fn in_gamepad(x: int, y: int) -> bool {
    (4 <= x <= 27 && 8 <= y <= 24) || (2 <= x <= 10 && 14 <= y <= 28) || (21 <= x <= 29 && 14 <= y
        <= 28)
}

/// The pixel is part of the white d-pad or of the white action buttons.
pub open spec fn is_white_detail(x: int, y: int) -> bool {
    (x == 9 && 13 <= y <= 17) || (y == 15 && 7 <= x <= 11) || (x == 23 && y == 13) || (x == 23 && y
        == 17) || (x == 21 && y == 15) || (x == 25 && y == 15)
}

/// The pixel is part of the dark home button.
pub open spec fn is_home_button(x: int, y: int) -> bool {
    (x == 15 || x == 16) && (y == 14 || y == 15)
}

/// The RGBA colour of a pixel of the icon: transparent outside the gamepad;
/// Discord blurple (88, 101, 242), with a white d-pad and action buttons and
/// a dark blurple (50, 60, 160) home button.
pub open spec fn icon_pixel(x: int, y: int) -> (u8, u8, u8, u8) {
    if !in_gamepad(x, y) {
        (0, 0, 0, 0)
    } else if is_home_button(x, y) {
        (50, 60, 160, 255)
    } else if is_white_detail(x, y) {
        (255, 255, 255, 255)
    } else {
        (88, 101, 242, 255)
    }
}

/// Channel `k` (0 red, 1 green, 2 blue, 3 alpha) of a colour.
pub open spec fn channel(c: (u8, u8, u8, u8), k: int) -> u8 {
    if k == 0 {
        c.0
    } else if k == 1 {
        c.1
    } else if k == 2 {
        c.2
    } else {
        c.3
    }
}

/// Byte `j` of the icon's buffer: rows top to bottom, pixels left to right,
/// four bytes each.
pub open spec fn icon_byte(j: int) -> u8 {
    channel(icon_pixel((j / 4) % 32, j / 128), j % 4)
}

fn pixel_color(x: usize, y: usize) -> (r: (u8, u8, u8, u8))
    ensures
        r == icon_pixel(x as int, y as int),
{
    let in_body = x >= 4 && x <= 27 && y >= 8 && y <= 24;
    let in_left_grip = x >= 2 && x <= 10 && y >= 14 && y <= 28;
    let in_right_grip = x >= 21 && x <= 29 && y >= 14 && y <= 28;
    if !(in_body || in_left_grip || in_right_grip) {
        return (0, 0, 0, 0);
    }
    if (x == 15 || x == 16) && (y == 14 || y == 15) {
        return (50, 60, 160, 255);
    }
    let is_dpad_v = x == 9 && y >= 13 && y <= 17;
    let is_dpad_h = y == 15 && x >= 7 && x <= 11;
    let is_btn = (x == 23 && y == 13) || (x == 23 && y == 17) || (x == 21 && y == 15) || (x == 25
        && y == 15);
    if is_dpad_v || is_dpad_h || is_btn {
        (255, 255, 255, 255)
    } else {
        (88, 101, 242, 255)
    }
}

proof fn lemma_icon_index(x: int, y: int, k: int)
    requires
        0 <= x < 32,
        0 <= y < 32,
        0 <= k < 4,
    ensures
        ((128 * y + 4 * x + k) / 4) % 32 == x,
        (128 * y + 4 * x + k) / 128 == y,
        (128 * y + 4 * x + k) % 4 == k,
{
    assert(((128 * y + 4 * x + k) / 4) == 32 * y + x) by (nonlinear_arith)
        requires
            0 <= x < 32,
            0 <= k < 4,
    ;
    assert((32 * y + x) % 32 == x) by (nonlinear_arith)
        requires
            0 <= x < 32,
    ;
    assert((128 * y + 4 * x + k) / 128 == y) by (nonlinear_arith)
        requires
            0 <= x < 32,
            0 <= k < 4,
    ;
    assert((128 * y + 4 * x + k) % 4 == k) by (nonlinear_arith)
        requires
            0 <= k < 4,
    ;
}

/// The RGBA pixels of the 32x32 gamepad tray icon, row by row.
pub fn gamepad_icon_rgba() -> (r: Vec<u8>)
    ensures
        r@.len() == ICON_BYTES,
        forall|j: int| 0 <= j < ICON_BYTES ==> #[trigger] r@[j] == icon_byte(j),
{
    let mut rgba: Vec<u8> = Vec::new();
    let mut y: usize = 0;
    while y < ICON_SIZE
        invariant
            y <= ICON_SIZE,
            rgba@.len() == 128 * y,
            forall|j: int| 0 <= j < rgba@.len() ==> #[trigger] rgba@[j] == icon_byte(j),
        decreases ICON_SIZE - y,
    {
        let mut x: usize = 0;
        while x < ICON_SIZE
            invariant
                y < ICON_SIZE,
                x <= ICON_SIZE,
                rgba@.len() == 128 * y + 4 * x,
                forall|j: int| 0 <= j < rgba@.len() ==> #[trigger] rgba@[j] == icon_byte(j),
            decreases ICON_SIZE - x,
        {
            let c = pixel_color(x, y);
            proof {
                lemma_icon_index(x as int, y as int, 0);
                lemma_icon_index(x as int, y as int, 1);
                lemma_icon_index(x as int, y as int, 2);
                lemma_icon_index(x as int, y as int, 3);
            }
            rgba.push(c.0);
            rgba.push(c.1);
            rgba.push(c.2);
            rgba.push(c.3);
            x = x + 1;
        }
        y = y + 1;
    }
    rgba
}

} // verus!
