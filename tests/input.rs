use stremio_shell::display::{pick_config, refresh_rate};
use stremio_shell::gl_context::{GlContextSlot, GlError, GlState};
use stremio_shell::keys::{NativeKeyCode, WindowsKeyCode};
use stremio_shell::types::{Cursor, MouseDelta, MousePosition, WindowSize};
use stremio_shell::webview::{
    is_ipc_receiver, keyboard_input, load_end_event, needs_redraw, popup_event,
    post_message_script, process_message_event, BrowserCursor, BrowserKeyEvent, InputState,
    KeyEventType, MouseAction, MouseButtonType, WebViewEvent,
};
use winit::dpi::PhysicalSize;
use winit::event::{ElementState, MouseButton};
use winit::keyboard::{KeyCode, NativeKeyCode as PlatformKeyCode, PhysicalKey};
use winit::window::CursorIcon;

#[test]
fn allow_listed_keys_have_both_codes() {
    let cases = [
        (KeyCode::Backspace, 8, 22),
        (KeyCode::Enter, 13, 36),
        (KeyCode::Space, 32, 65),
        (KeyCode::ArrowDown, 40, 116),
        (KeyCode::Digit0, 48, 19),
        (KeyCode::Digit9, 57, 18),
        (KeyCode::KeyA, 65, 38),
        (KeyCode::KeyX, 88, 53),
    ];
    for (key, w, n) in cases {
        assert_eq!(WindowsKeyCode::try_from(key).unwrap().0, w);
        assert_eq!(NativeKeyCode::try_from(key).unwrap().0, n);
    }
    assert!(WindowsKeyCode::try_from(KeyCode::KeyB).is_err());
    assert!(NativeKeyCode::try_from(KeyCode::F1).is_err());
}

#[test]
fn keyboard_input_makes_key_and_char_events() {
    let down = keyboard_input(PhysicalKey::Code(KeyCode::KeyA), ElementState::Pressed, Some('a'));
    assert_eq!(
        down,
        vec![
            BrowserKeyEvent { kind: KeyEventType::KeyDown, windows_key_code: 65, native_key_code: 38, character: 0 },
            BrowserKeyEvent { kind: KeyEventType::Char, windows_key_code: 0, native_key_code: 0, character: 97 },
        ]
    );
    let up = keyboard_input(PhysicalKey::Code(KeyCode::KeyA), ElementState::Released, Some('a'));
    assert_eq!(
        up,
        vec![BrowserKeyEvent { kind: KeyEventType::KeyUp, windows_key_code: 65, native_key_code: 38, character: 0 }]
    );
    let unmapped = keyboard_input(PhysicalKey::Code(KeyCode::KeyQ), ElementState::Pressed, Some('é'));
    assert_eq!(
        unmapped,
        vec![BrowserKeyEvent { kind: KeyEventType::Char, windows_key_code: 0, native_key_code: 0, character: 0xe9 }]
    );
    let unknown = keyboard_input(
        PhysicalKey::Unidentified(PlatformKeyCode::Xkb(5)),
        ElementState::Released,
        None,
    );
    assert!(unknown.is_empty());
}

#[test]
fn mouse_buttons_click_or_navigate() {
    let mut input = InputState::new();
    input.mouse_moved(MousePosition(12, 34));
    assert_eq!(input.mouse_input(ElementState::Pressed, MouseButton::Back), MouseAction::Ignore);
    assert_eq!(input.mouse_input(ElementState::Released, MouseButton::Back), MouseAction::GoBack);
    assert_eq!(input.mouse_input(ElementState::Released, MouseButton::Forward), MouseAction::GoForward);
    assert_eq!(
        input.mouse_input(ElementState::Pressed, MouseButton::Left),
        MouseAction::Click { button: MouseButtonType::Left, mouse_up: false, position: MousePosition(12, 34) }
    );
    assert_eq!(
        input.mouse_input(ElementState::Released, MouseButton::Middle),
        MouseAction::Click { button: MouseButtonType::Middle, mouse_up: true, position: MousePosition(12, 34) }
    );
    assert_eq!(input.mouse_input(ElementState::Pressed, MouseButton::Other(9)), MouseAction::Ignore);
    assert_eq!(input.mouse_wheel(MouseDelta(0, -120)), (MousePosition(12, 34), 0, -120));
}

#[test]
fn browser_cursors_map_with_hidden_fallback() {
    assert_eq!(Cursor::from_browser(BrowserCursor::Pointer), Cursor::Default);
    assert_eq!(Cursor::from_browser(BrowserCursor::Hand), Cursor::Pointer);
    assert_eq!(Cursor::from_browser(BrowserCursor::IBeam), Cursor::Text);
    assert_eq!(Cursor::from_browser(BrowserCursor::Hidden), Cursor::Hidden);
    assert_eq!(Cursor::from_browser(BrowserCursor::Other), Cursor::Hidden);
    assert_eq!(Cursor::Pointer.icon(), Ok(CursorIcon::Pointer));
    assert_eq!(Cursor::ZoomOut.icon(), Ok(CursorIcon::ZoomOut));
    assert!(Cursor::Hidden.icon().is_err());
}

#[test]
fn paints_in_one_tick_coalesce() {
    assert!(!needs_redraw(&vec![]));
    assert!(!needs_redraw(&vec![WebViewEvent::Ready, WebViewEvent::Ipc("x".to_string())]));
    assert!(needs_redraw(&vec![WebViewEvent::Paint, WebViewEvent::Loaded, WebViewEvent::Paint]));
}

#[test]
fn process_messages_match_exact_names() {
    assert_eq!(process_message_event(&"ready".to_string(), None), Some(WebViewEvent::Ready));
    assert_eq!(
        process_message_event(&"ipc".to_string(), Some("{}".to_string())),
        Some(WebViewEvent::Ipc("{}".to_string()))
    );
    assert_eq!(process_message_event(&"ipc".to_string(), None), None);
    assert_eq!(process_message_event(&"ipcx".to_string(), Some("{}".to_string())), None);
    assert_eq!(process_message_event(&"Ready".to_string(), None), None);
    assert!(is_ipc_receiver(&"__ipcReceive".to_string()));
    assert!(!is_ipc_receiver(&"__postMessage".to_string()));
}

#[test]
fn load_end_and_popups() {
    assert_eq!(load_end_event(true, 200), Some(WebViewEvent::Loaded));
    assert_eq!(load_end_event(false, 200), None);
    assert_eq!(load_end_event(true, 404), None);
    assert_eq!(
        popup_event(Some("https://example.com".to_string())),
        Some(WebViewEvent::Open("https://example.com/".to_string()))
    );
    assert_eq!(popup_event(Some("not a url".to_string())), None);
    assert_eq!(popup_event(None), None);
}

#[test]
fn post_message_script_quotes_the_message() {
    assert_eq!(post_message_script("{\"Init\":null}"), "__postMessage(\"{\\\"Init\\\":null}\")");
    assert_eq!(post_message_script("it's"), "__postMessage(\"it's\")");
    assert_eq!(
        post_message_script("a\u{8}\t\n\u{c}\r\u{1}\u{1f}\\/é"),
        "__postMessage(\"a\\b\\t\\n\\f\\r\\u0001\\u001f\\\\/é\")"
    );
}

#[test]
fn window_size_from_physical() {
    assert_eq!(WindowSize::from_physical(PhysicalSize::new(1280, 720)), WindowSize(1280, 720));
}

#[test]
fn gl_context_is_handed_to_one_holder() {
    let mut slot: GlContextSlot<u32> = GlContextSlot::new();
    assert_eq!(slot.begin(), None);
    assert_eq!(slot.state(), GlState::Uninitialized);
    assert!(slot.install(7));
    assert!(!slot.install(8));
    assert_eq!(slot.state(), GlState::Parked);
    let ctx = slot.begin().unwrap();
    assert_eq!(ctx, 7);
    assert_eq!(slot.state(), GlState::Current);
    assert_eq!(slot.begin(), None);
    assert_eq!(slot.end(ctx), Ok(()));
    assert_eq!(slot.state(), GlState::Parked);
    assert_eq!(slot.end(1), Err(GlError::NotHeld));
    let ctx = slot.begin().unwrap();
    assert_eq!(ctx, 7);
    assert_eq!(slot.fail(), Ok(()));
    assert_eq!(slot.state(), GlState::Lost);
    assert_eq!(slot.begin(), None);
}

#[test]
fn config_with_most_samples_is_picked_first() {
    assert_eq!(pick_config(&vec![]), None);
    assert_eq!(pick_config(&vec![0]), Some(0));
    assert_eq!(pick_config(&vec![0, 4, 2, 4]), Some(1));
    assert_eq!(pick_config(&vec![8, 4, 8]), Some(0));
}

#[test]
fn refresh_rate_of_first_reporting_monitor() {
    assert_eq!(refresh_rate(&vec![]), 30);
    assert_eq!(refresh_rate(&vec![None, None]), 30);
    assert_eq!(refresh_rate(&vec![None, Some(59_940), Some(144_000)]), 59);
    assert_eq!(refresh_rate(&vec![Some(60_000)]), 60);
}
