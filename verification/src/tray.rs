//! The notification-area icon's decisions: what a window message asks for,
//! and what the context menu holds.

use vstd::prelude::*;
use crate::key_emulator::InputBackend;

verus! {

/// The message the notification icon sends to its window.
pub const WM_TRAY_CALLBACK: u32 = 0x8000 + 1;

pub const ID_TRAY_START: usize = 1001;
pub const ID_TRAY_STOP: usize = 1002;
pub const ID_TRAY_TOGGLE_INPUT_BACKEND: usize = 1003;
pub const ID_TRAY_EXIT: usize = 1004;

pub const WM_DESTROY: u32 = 0x0002;
pub const WM_COMMAND: u32 = 0x0111;
pub const WM_LBUTTONUP: u32 = 0x0202;
pub const WM_LBUTTONDBLCLK: u32 = 0x0203;
pub const WM_RBUTTONUP: u32 = 0x0205;

pub const MF_STRING: u32 = 0x0000;
pub const MF_GRAYED: u32 = 0x0001;
pub const MF_SEPARATOR: u32 = 0x0800;

/// What the tray window does with a message.
#[derive(Debug, Clone, Copy, PartialEq, Eq, Structural)]
pub enum TrayAction {
    /// Start the emulator if it is stopped, stop it if it runs.
    Toggle,
    /// Show the context menu.
    ShowWindow,
    Start,
    Stop,
    ToggleInputBackend,
    /// Shut the application down.
    Exit,
    /// The window is destroyed: leave the message loop.
    Quit,
    /// The message is handled and nothing is to be done.
    Handled,
    /// Hand the message to the default window procedure.
    Default,
}

/// The action for window message `msg` with parameters `wparam` and the
/// low 32 bits `lparam_low` of its second parameter.
pub open spec fn spec_tray_action(msg: u32, wparam: usize, lparam_low: u32) -> TrayAction {
    if msg == WM_TRAY_CALLBACK {
        if lparam_low == WM_LBUTTONUP {
            TrayAction::Toggle
        } else if lparam_low == WM_RBUTTONUP || lparam_low == WM_LBUTTONDBLCLK {
            TrayAction::ShowWindow
        } else {
            TrayAction::Handled
        }
    } else if msg == WM_COMMAND {
        let cmd = wparam as int % 0x10000;
        if cmd == ID_TRAY_START {
            TrayAction::Start
        } else if cmd == ID_TRAY_STOP {
            TrayAction::Stop
        } else if cmd == ID_TRAY_TOGGLE_INPUT_BACKEND {
            TrayAction::ToggleInputBackend
        } else if cmd == ID_TRAY_EXIT {
            TrayAction::Exit
        } else {
            TrayAction::Default
        }
    } else if msg == WM_DESTROY {
        TrayAction::Quit
    } else {
        TrayAction::Default
    }
}

pub fn tray_message_action(msg: u32, wparam: usize, lparam_low: u32) -> (a: TrayAction)
    ensures
        a == spec_tray_action(msg, wparam, lparam_low),
{
    if msg == WM_TRAY_CALLBACK {
        if lparam_low == WM_LBUTTONUP {
            TrayAction::Toggle
        } else if lparam_low == WM_RBUTTONUP || lparam_low == WM_LBUTTONDBLCLK {
            TrayAction::ShowWindow
        } else {
            TrayAction::Handled
        }
    } else if msg == WM_COMMAND {
        assert(wparam & 0xFFFF == wparam % 0x10000) by (bit_vector);
        let cmd = wparam & 0xFFFF;
        if cmd == ID_TRAY_START {
            TrayAction::Start
        } else if cmd == ID_TRAY_STOP {
            TrayAction::Stop
        } else if cmd == ID_TRAY_TOGGLE_INPUT_BACKEND {
            TrayAction::ToggleInputBackend
        } else if cmd == ID_TRAY_EXIT {
            TrayAction::Exit
        } else {
            TrayAction::Default
        }
    } else if msg == WM_DESTROY {
        TrayAction::Quit
    } else {
        TrayAction::Default
    }
}

/// One line of the context menu.
#[derive(Debug, Clone, Copy, PartialEq, Eq)]
pub enum MenuEntry {
    /// A command with its id, the key of its text, and whether it can be chosen.
    Item { id: usize, text_key: &'static str, enabled: bool },
    Separator,
}

/// The text key of the backend entry, which names the current backend.
pub open spec fn backend_text_key(b: InputBackend) -> &'static str {
    match b {
        InputBackend::SendInput => "tray.input_backend.sendinput",
        InputBackend::KeybdEvent => "tray.input_backend.keybd_event",
    }
}

/// The context menu: start (only while stopped), stop (only while
/// running), the backend switch, and exit.
pub open spec fn spec_context_menu(running: bool, backend: InputBackend) -> Seq<MenuEntry> {
    seq![
        MenuEntry::Item { id: ID_TRAY_START, text_key: "tray.start", enabled: !running },
        MenuEntry::Item { id: ID_TRAY_STOP, text_key: "tray.stop", enabled: running },
        MenuEntry::Separator,
        MenuEntry::Item {
            id: ID_TRAY_TOGGLE_INPUT_BACKEND,
            text_key: backend_text_key(backend),
            enabled: true,
        },
        MenuEntry::Separator,
        MenuEntry::Item { id: ID_TRAY_EXIT, text_key: "tray.exit", enabled: true },
    ]
}

/// The entries of the context menu, in order.
pub fn populate_context_menu(emulator_running: bool, input_backend: InputBackend) -> (m: Vec<
    MenuEntry,
>)
    ensures
        m@ == spec_context_menu(emulator_running, input_backend),
{
    let backend_key: &'static str = match input_backend {
        InputBackend::SendInput => "tray.input_backend.sendinput",
        InputBackend::KeybdEvent => "tray.input_backend.keybd_event",
    };
    let m: Vec<MenuEntry> = vec![
        MenuEntry::Item { id: ID_TRAY_START, text_key: "tray.start", enabled: !emulator_running },
        MenuEntry::Item { id: ID_TRAY_STOP, text_key: "tray.stop", enabled: emulator_running },
        MenuEntry::Separator,
        MenuEntry::Item { id: ID_TRAY_TOGGLE_INPUT_BACKEND, text_key: backend_key, enabled: true },
        MenuEntry::Separator,
        MenuEntry::Item { id: ID_TRAY_EXIT, text_key: "tray.exit", enabled: true },
    ];
    assert(m@ =~= spec_context_menu(emulator_running, input_backend));
    m
}

/// The flags of a menu command: a grayed string when it cannot be chosen.
pub fn menu_item_flags(enabled: bool) -> (f: u32)
    ensures
        f == if enabled { MF_STRING } else { MF_STRING | MF_GRAYED },
{
    if enabled {
        MF_STRING
    } else {
        MF_STRING | MF_GRAYED
    }
}

/// A left click on the icon toggles the emulator, a right click or a
/// double click opens the menu, other icon messages are handled and
/// ignored; menu commands are told apart by the low 16 bits of `wparam`
/// alone, and the window's destruction ends the message loop.
pub proof fn lemma_tray_actions(wparam: usize, lparam_low: u32)
    ensures
        spec_tray_action(0x8001, wparam, 0x0202) == TrayAction::Toggle,
        spec_tray_action(0x8001, wparam, 0x0205) == TrayAction::ShowWindow,
        spec_tray_action(0x8001, wparam, 0x0203) == TrayAction::ShowWindow,
        lparam_low != 0x0202 && lparam_low != 0x0205 && lparam_low != 0x0203 ==> spec_tray_action(
            0x8001,
            wparam,
            lparam_low,
        ) == TrayAction::Handled,
        wparam as int % 0x10000 == 1001 ==> spec_tray_action(0x0111, wparam, lparam_low)
            == TrayAction::Start,
        wparam as int % 0x10000 == 1002 ==> spec_tray_action(0x0111, wparam, lparam_low)
            == TrayAction::Stop,
        wparam as int % 0x10000 == 1003 ==> spec_tray_action(0x0111, wparam, lparam_low)
            == TrayAction::ToggleInputBackend,
        wparam as int % 0x10000 == 1004 ==> spec_tray_action(0x0111, wparam, lparam_low)
            == TrayAction::Exit,
        !(1001 <= wparam as int % 0x10000 <= 1004) ==> spec_tray_action(0x0111, wparam, lparam_low)
            == TrayAction::Default,
        spec_tray_action(0x0002, wparam, lparam_low) == TrayAction::Quit,
{
}

/// Start can be chosen only while stopped and stop only while running; the
/// backend entry names the current backend and, like exit, can always be
/// chosen.
pub proof fn lemma_context_menu_enabling(running: bool, backend: InputBackend)
    ensures
        spec_context_menu(running, backend).len() == 6,
        spec_context_menu(running, backend)[0] == (MenuEntry::Item {
            id: 1001,
            text_key: "tray.start",
            enabled: !running,
        }),
        spec_context_menu(running, backend)[1] == (MenuEntry::Item {
            id: 1002,
            text_key: "tray.stop",
            enabled: running,
        }),
        spec_context_menu(running, backend)[2] == MenuEntry::Separator,
        spec_context_menu(running, backend)[3] == (MenuEntry::Item {
            id: 1003,
            text_key: if backend == InputBackend::SendInput {
                "tray.input_backend.sendinput"
            } else {
                "tray.input_backend.keybd_event"
            },
            enabled: true,
        }),
        spec_context_menu(running, backend)[4] == MenuEntry::Separator,
        spec_context_menu(running, backend)[5] == (MenuEntry::Item {
            id: 1004,
            text_key: "tray.exit",
            enabled: true,
        }),
{
}

} // verus!
