//! The browser bridge: what the browser engine's callbacks become, and what
//! native input becomes for the browser engine.
use vstd::prelude::*;
use winit::event::{ElementState, MouseButton};
use winit::keyboard::{KeyCode, NativeKeyCode as PlatformKeyCode, PhysicalKey};
use crate::ipc::json_quoted;
use crate::keys::{native_code_of, windows_code_of, NativeKeyCode, WindowsKeyCode};
use crate::text::text_is;
use vstd::string::StringExecFns;
use crate::types::{Cursor, MouseDelta, MousePosition};

verus! {

#[verifier::external_type_specification]
pub struct ExElementState(ElementState);

#[verifier::external_type_specification]
pub struct ExMouseButton(MouseButton);

#[verifier::external_type_specification]
pub struct ExPlatformKeyCode(PlatformKeyCode);

#[verifier::external_type_specification]
pub struct ExPhysicalKey(PhysicalKey);

/// Name of the process message sent once per browser context when its page is ready.
pub const READY_MESSAGE: &'static str = "ready";
/// Name of the process message that carries the page's IPC payloads.
pub const IPC_MESSAGE: &'static str = "ipc";
/// Global function of the page that receives native messages.
pub const IPC_SENDER: &'static str = "__postMessage";
/// Native function exposed to the page's scripts.
pub const IPC_RECEIVER: &'static str = "__ipcReceive";

/// Events of the browser engine, in neutral form.
#[derive(Debug, PartialEq, Eq)]
pub enum WebViewEvent {
    Ready,
    Loaded,
    Paint,
    Cursor(Cursor),
    Ipc(String),
    Open(String),
}

/// The browser engine's cursor kinds that have a neutral counterpart; every
/// other kind is `Other`.
#[derive(Debug, Clone, Copy, PartialEq, Eq, Structural)]
pub enum BrowserCursor {
    Pointer,
    Hand,
    IBeam,
    Move,
    ZoomIn,
    ZoomOut,
    Wait,
    Hidden,
    Other,
}

pub open spec fn cursor_of(c: BrowserCursor) -> Cursor {
    match c {
        BrowserCursor::Pointer => Cursor::Default,
        BrowserCursor::Hand => Cursor::Pointer,
        BrowserCursor::IBeam => Cursor::Text,
        BrowserCursor::Move => Cursor::Move,
        BrowserCursor::ZoomIn => Cursor::ZoomIn,
        BrowserCursor::ZoomOut => Cursor::ZoomOut,
        BrowserCursor::Wait => Cursor::Wait,
        BrowserCursor::Hidden => Cursor::Hidden,
        BrowserCursor::Other => Cursor::Hidden,
    }
}

impl Cursor {
    /// The neutral cursor for a browser cursor; kinds without a counterpart
    /// hide the cursor.
    pub fn from_browser(value: BrowserCursor) -> (r: Cursor)
        ensures
            r == cursor_of(value),
    {
        match value {
            BrowserCursor::Pointer => Cursor::Default,
            BrowserCursor::Hand => Cursor::Pointer,
            BrowserCursor::IBeam => Cursor::Text,
            BrowserCursor::Move => Cursor::Move,
            BrowserCursor::ZoomIn => Cursor::ZoomIn,
            BrowserCursor::ZoomOut => Cursor::ZoomOut,
            BrowserCursor::Wait => Cursor::Wait,
            BrowserCursor::Hidden => Cursor::Hidden,
            BrowserCursor::Other => Cursor::Hidden,
        }
    }
}

/// The browser engine's mouse buttons.
#[derive(Debug, Clone, Copy, PartialEq, Eq, Structural)]
pub enum MouseButtonType {
    Left,
    Middle,
    Right,
}

/// What one mouse button transition does in the browser.
#[derive(Debug, Clone, Copy, PartialEq, Eq, Structural)]
pub enum MouseAction {
    /// Navigate back in history.
    GoBack,
    /// Navigate forward in history.
    GoForward,
    /// A click event at `position`; `mouse_up` on release.
    Click { button: MouseButtonType, mouse_up: bool, position: MousePosition },
    Ignore,
}

/// The browser engine's kinds of key event.
#[derive(Debug, Clone, Copy, PartialEq, Eq, Structural)]
pub enum KeyEventType {
    KeyDown,
    KeyUp,
    Char,
}

#[derive(Debug, Clone, Copy, PartialEq, Eq, Structural)]
pub struct BrowserKeyEvent {
    pub kind: KeyEventType,
    pub windows_key_code: i32,
    pub native_key_code: i32,
    /// UTF-16 code unit of a typed character.
    pub character: u16,
}

/// The key event for a physical key, when it is on the allow-list.
pub open spec fn key_event_of(physical: PhysicalKey, pressed: bool) -> Option<BrowserKeyEvent> {
    match physical {
        PhysicalKey::Code(code) => match (windows_code_of(code), native_code_of(code)) {
            (Some(w), Some(n)) => Some(
                BrowserKeyEvent {
                    kind: if pressed {
                        KeyEventType::KeyDown
                    } else {
                        KeyEventType::KeyUp
                    },
                    windows_key_code: w,
                    native_key_code: n,
                    character: 0,
                },
            ),
            _ => None,
        },
        _ => None,
    }
}

/// The character event for a key press that types `text`.
pub open spec fn char_event_of(pressed: bool, text: Option<char>) -> Option<BrowserKeyEvent> {
    match text {
        Some(c) => if pressed {
            Some(
                BrowserKeyEvent {
                    kind: KeyEventType::Char,
                    windows_key_code: 0,
                    native_key_code: 0,
                    character: c as u32 as u16,
                },
            )
        } else {
            None
        },
        None => None,
    }
}

pub open spec fn opt_seq<A>(o: Option<A>) -> Seq<A> {
    match o {
        Some(a) => seq![a],
        None => Seq::empty(),
    }
}

/// Whether a tick's browser events call for a redraw: any number of paints
/// in one tick make a single draw.
pub open spec fn redraw_spec(events: Seq<WebViewEvent>) -> bool {
    exists|i: int| 0 <= i < events.len() && events[i] is Paint
}

pub fn needs_redraw(events: &Vec<WebViewEvent>) -> (r: bool)
    ensures
        r == redraw_spec(events@),
{
    let mut i: usize = 0;
    while i < events.len()
        invariant
            i <= events@.len(),
            forall|j: int| 0 <= j < i ==> !(events@[j] is Paint),
        decreases events@.len() - i,
    {
        if let WebViewEvent::Paint = events[i] {
            return true;
        }
        i = i + 1;
    }
    false
}

/// The event for a process message of the render process: `name` is
/// compared as an exact wire string; the IPC channel needs its payload.
pub fn process_message_event(name: &String, payload: Option<String>) -> (r: Option<WebViewEvent>)
    ensures
        name@ == READY_MESSAGE@ ==> r == Some(WebViewEvent::Ready),
        name@ == IPC_MESSAGE@ ==> match payload {
            Some(p) => r matches Some(WebViewEvent::Ipc(d)) && d@ == p@,
            None => r is None,
        },
        name@ != READY_MESSAGE@ && name@ != IPC_MESSAGE@ ==> r is None,
{
    proof {
        reveal_strlit("ready");
        reveal_strlit("ipc");
        assert(READY_MESSAGE@.len() != IPC_MESSAGE@.len());
    }
    if text_is(name, READY_MESSAGE) {
        Some(WebViewEvent::Ready)
    } else if text_is(name, IPC_MESSAGE) {
        match payload {
            Some(p) => Some(WebViewEvent::Ipc(p)),
            None => None,
        }
    } else {
        None
    }
}

/// Whether a script call of the function `name` is the page calling the
/// native IPC receiver.
pub fn is_ipc_receiver(name: &String) -> (r: bool)
    ensures
        r == (name@ == IPC_RECEIVER@),
{
    text_is(name, IPC_RECEIVER)
}

/// The main frame finished loading successfully.
pub fn load_end_event(is_main: bool, http_status_code: i32) -> (r: Option<WebViewEvent>)
    ensures
        (is_main && http_status_code == 200) ==> r == Some(WebViewEvent::Loaded),
        !(is_main && http_status_code == 200) ==> r is None,
{
    if is_main && http_status_code == 200 {
        Some(WebViewEvent::Loaded)
    } else {
        None
    }
}

/// The script that hands `message` to the page's receiving function, with
/// the message as a JSON string literal.
pub open spec fn post_script_spec(message: Seq<char>) -> Seq<char> {
    IPC_SENDER@ + "("@ + json_quoted(message) + ")"@
}

pub fn post_message_script(message: &str) -> (r: String)
    ensures
        r@ == post_script_spec(message@),
{
    let mut out = String::new();
    out.append(IPC_SENDER);
    out.append("(");
    let quoted = crate::ipc::quote(message);
    out.append(quoted.as_str());
    out.append(")");
    assert(out@ =~= post_script_spec(message@));
    out
}

/// The serialization of an absolute URL, or `None` where the text is not one.
pub uninterp spec fn url_serialization(s: Seq<char>) -> Option<Seq<char>>;

/// Relies on url::Url::parse, and on the Display of url::Url for its
/// serialization.
#[verifier::external_body]
fn parse_url(s: &str) -> (r: Option<String>)
    ensures
        match (r, url_serialization(s@)) {
            (None, None) => true,
            (Some(v), Some(e)) => v@ == e,
            _ => false,
        },
{
    url::Url::parse(s).ok().map(|u| u.to_string())
}

/// A page asked for a popup: there is a single browser surface, so a target
/// that is a URL is opened outside instead; anything else is dropped.
pub fn popup_event(target_url: Option<String>) -> (r: Option<WebViewEvent>)
    ensures
        match target_url {
            Some(t) => match url_serialization(t@) {
                Some(u) => r matches Some(WebViewEvent::Open(o)) && o@ == u,
                None => r is None,
            },
            None => r is None,
        },
{
    match target_url {
        Some(t) => match parse_url(t.as_str()) {
            Some(u) => Some(WebViewEvent::Open(u)),
            None => None,
        },
        None => None,
    }
}

/// Input state the bridge keeps: where the mouse is.
pub struct InputState {
    pub mouse_position: MousePosition,
}

impl InputState {
    pub fn new() -> (r: InputState)
        ensures
            r.mouse_position == MousePosition(0, 0),
    {
        InputState { mouse_position: MousePosition(0, 0) }
    }

    /// Records the pointer's position; it is where the next wheel and click
    /// events happen.
    pub fn mouse_moved(&mut self, position: MousePosition) -> (r: MousePosition)
        ensures
            final(self).mouse_position == position,
            r == position,
    {
        self.mouse_position = position;
        position
    }

    /// A wheel event at the pointer: its position and the scroll amounts.
    pub fn mouse_wheel(&self, delta: MouseDelta) -> (r: (MousePosition, i32, i32))
        ensures
            r == (self.mouse_position, delta.0, delta.1),
    {
        (self.mouse_position, delta.0, delta.1)
    }

    /// What a button transition does: on release the back and forward
    /// buttons navigate; the left, right and middle buttons click at the
    /// pointer on press and on release; anything else is ignored.
    pub fn mouse_input(&self, state: ElementState, button: MouseButton) -> (r: MouseAction)
        ensures
            r == mouse_action_spec(self.mouse_position, state, button),
    {
        let mouse_up = match state {
            ElementState::Pressed => false,
            ElementState::Released => true,
        };
        match button {
            MouseButton::Back => if mouse_up {
                MouseAction::GoBack
            } else {
                MouseAction::Ignore
            },
            MouseButton::Forward => if mouse_up {
                MouseAction::GoForward
            } else {
                MouseAction::Ignore
            },
            MouseButton::Left => MouseAction::Click {
                button: MouseButtonType::Left,
                mouse_up,
                position: self.mouse_position,
            },
            MouseButton::Right => MouseAction::Click {
                button: MouseButtonType::Right,
                mouse_up,
                position: self.mouse_position,
            },
            MouseButton::Middle => MouseAction::Click {
                button: MouseButtonType::Middle,
                mouse_up,
                position: self.mouse_position,
            },
            _ => MouseAction::Ignore,
        }
    }
}

pub open spec fn mouse_action_spec(
    position: MousePosition,
    state: ElementState,
    button: MouseButton,
) -> MouseAction {
    let mouse_up = state is Released;
    match button {
        MouseButton::Back => if mouse_up {
            MouseAction::GoBack
        } else {
            MouseAction::Ignore
        },
        MouseButton::Forward => if mouse_up {
            MouseAction::GoForward
        } else {
            MouseAction::Ignore
        },
        MouseButton::Left => MouseAction::Click { button: MouseButtonType::Left, mouse_up, position },
        MouseButton::Right => MouseAction::Click { button: MouseButtonType::Right, mouse_up, position },
        MouseButton::Middle => MouseAction::Click { button: MouseButtonType::Middle, mouse_up, position },
        _ => MouseAction::Ignore,
    }
}

/// The key events for one keyboard transition: the dual-code key event when
/// the physical key is on the allow-list (other keys are dropped), then, on a
/// press that types a character, the character event.
pub fn keyboard_input(physical: PhysicalKey, state: ElementState, text: Option<char>) -> (r: Vec<
    BrowserKeyEvent,
>)
    ensures
        r@ == opt_seq(key_event_of(physical, state is Pressed)) + opt_seq(
            char_event_of(state is Pressed, text),
        ),
{
    let pressed = match state {
        ElementState::Pressed => true,
        ElementState::Released => false,
    };
    let mut out: Vec<BrowserKeyEvent> = Vec::new();
    if let PhysicalKey::Code(code) = physical {
        if let (Ok(WindowsKeyCode(w)), Ok(NativeKeyCode(n))) = (
            WindowsKeyCode::try_from(code),
            NativeKeyCode::try_from(code),
        ) {
            out.push(
                BrowserKeyEvent {
                    kind: if pressed {
                        KeyEventType::KeyDown
                    } else {
                        KeyEventType::KeyUp
                    },
                    windows_key_code: w,
                    native_key_code: n,
                    character: 0,
                },
            );
        }
    }
    let ghost first = out@;
    if pressed {
        if let Some(c) = text {
            out.push(
                BrowserKeyEvent {
                    kind: KeyEventType::Char,
                    windows_key_code: 0,
                    native_key_code: 0,
                    character: c as u32 as u16,
                },
            );
        }
    }
    assert(out@ =~= opt_seq(key_event_of(physical, pressed)) + opt_seq(char_event_of(pressed, text)));
    out
}

} // verus!
