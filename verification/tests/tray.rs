use ule4jis::key_emulator::InputBackend;
use ule4jis::tray::{
    menu_item_flags, populate_context_menu, tray_message_action, MenuEntry, TrayAction,
    ID_TRAY_EXIT, ID_TRAY_START, ID_TRAY_STOP, ID_TRAY_TOGGLE_INPUT_BACKEND, WM_TRAY_CALLBACK,
};
use ule4jis::tray::{
    MF_GRAYED, MF_STRING, WM_COMMAND, WM_DESTROY, WM_LBUTTONDBLCLK, WM_LBUTTONUP, WM_RBUTTONUP,
};

const WM_APP: u32 = 0x8000;
const WM_PAINT: u32 = 0x000F;

#[test]
fn window_messages() {
    assert_eq!(WM_TRAY_CALLBACK, WM_APP + 1);
    assert_eq!(tray_message_action(WM_TRAY_CALLBACK, 0, WM_LBUTTONUP), TrayAction::Toggle);
    assert_eq!(tray_message_action(WM_TRAY_CALLBACK, 0, WM_RBUTTONUP), TrayAction::ShowWindow);
    assert_eq!(tray_message_action(WM_TRAY_CALLBACK, 0, WM_LBUTTONDBLCLK), TrayAction::ShowWindow);
    assert_eq!(tray_message_action(WM_TRAY_CALLBACK, 0, 0x200), TrayAction::Handled);
    assert_eq!(tray_message_action(WM_COMMAND, ID_TRAY_START, 0), TrayAction::Start);
    assert_eq!(tray_message_action(WM_COMMAND, 0x1_0000 | ID_TRAY_STOP, 0), TrayAction::Stop);
    assert_eq!(
        tray_message_action(WM_COMMAND, ID_TRAY_TOGGLE_INPUT_BACKEND, 0),
        TrayAction::ToggleInputBackend
    );
    assert_eq!(tray_message_action(WM_COMMAND, ID_TRAY_EXIT, 0), TrayAction::Exit);
    assert_eq!(tray_message_action(WM_COMMAND, 999, 0), TrayAction::Default);
    assert_eq!(tray_message_action(WM_DESTROY, 0, 0), TrayAction::Quit);
    assert_eq!(tray_message_action(WM_PAINT, 0, 0), TrayAction::Default);
}

#[test]
fn context_menu_entries() {
    let m = populate_context_menu(true, InputBackend::KeybdEvent);
    assert_eq!(
        m,
        vec![
            MenuEntry::Item { id: ID_TRAY_START, text_key: "tray.start", enabled: false },
            MenuEntry::Item { id: ID_TRAY_STOP, text_key: "tray.stop", enabled: true },
            MenuEntry::Separator,
            MenuEntry::Item {
                id: ID_TRAY_TOGGLE_INPUT_BACKEND,
                text_key: "tray.input_backend.keybd_event",
                enabled: true,
            },
            MenuEntry::Separator,
            MenuEntry::Item { id: ID_TRAY_EXIT, text_key: "tray.exit", enabled: true },
        ]
    );
    let m = populate_context_menu(false, InputBackend::SendInput);
    assert_eq!(
        m[0],
        MenuEntry::Item { id: ID_TRAY_START, text_key: "tray.start", enabled: true }
    );
    assert_eq!(
        m[3],
        MenuEntry::Item {
            id: ID_TRAY_TOGGLE_INPUT_BACKEND,
            text_key: "tray.input_backend.sendinput",
            enabled: true,
        }
    );
}

#[test]
fn menu_flags() {
    assert_eq!(menu_item_flags(true), MF_STRING);
    assert_eq!(menu_item_flags(false), (MF_STRING | MF_GRAYED));
}
