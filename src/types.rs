//! Small value types exchanged at the router boundary.
use vstd::prelude::*;
use winit::dpi::PhysicalSize;
use winit::window::CursorIcon;

verus! {

#[verifier::external_type_specification]
pub struct ExCursorIcon(CursorIcon);

#[verifier::external_type_specification]
pub struct ExPhysicalSize<P>(PhysicalSize<P>);

/// Neutral cursor kinds.
#[derive(Debug, Clone, Copy, PartialEq, Eq, Structural)]
pub enum Cursor {
    Default,
    Pointer,
    Text,
    Move,
    ZoomIn,
    ZoomOut,
    Wait,
    /// No cursor: it is hidden.
    Hidden,
}

#[derive(Debug, Default, Clone, Copy, PartialEq, Eq, Structural)]
pub struct MousePosition(pub i32, pub i32);

#[derive(Debug, Default, Clone, Copy, PartialEq, Eq, Structural)]
pub struct MouseDelta(pub i32, pub i32);

#[derive(Debug, Clone, Copy, PartialEq, Eq, Structural)]
pub struct WindowSize(pub i32, pub i32);

/// Events of the single-instance channel.
#[derive(Debug, PartialEq, Eq)]
pub enum InstanceEvent {
    Open(String),
}

/// The window-system icon shown for a cursor; `None` for the hidden cursor.
pub open spec fn icon_of(cursor: Cursor) -> Option<CursorIcon> {
    match cursor {
        Cursor::Default => Some(CursorIcon::Default),
        Cursor::Pointer => Some(CursorIcon::Pointer),
        Cursor::Text => Some(CursorIcon::Text),
        Cursor::Move => Some(CursorIcon::Move),
        Cursor::ZoomIn => Some(CursorIcon::ZoomIn),
        Cursor::ZoomOut => Some(CursorIcon::ZoomOut),
        Cursor::Wait => Some(CursorIcon::Wait),
        Cursor::Hidden => None,
    }
}

impl Cursor {
    /// The window-system icon for this cursor, or an error for the hidden
    /// cursor, which the window shows by hiding the pointer.
    pub fn icon(self) -> (r: Result<CursorIcon, &'static str>)
        ensures
            match icon_of(self) {
                Some(i) => r == Ok::<CursorIcon, &'static str>(i),
                None => r is Err,
            },
    {
        match self {
            Cursor::Default => Ok(CursorIcon::Default),
            Cursor::Pointer => Ok(CursorIcon::Pointer),
            Cursor::Text => Ok(CursorIcon::Text),
            Cursor::Move => Ok(CursorIcon::Move),
            Cursor::ZoomIn => Ok(CursorIcon::ZoomIn),
            Cursor::ZoomOut => Ok(CursorIcon::ZoomOut),
            Cursor::Wait => Ok(CursorIcon::Wait),
            Cursor::Hidden => Err("Failed to convert Cursor to CursorIcon"),
        }
    }
}

impl WindowSize {
    /// The size in physical pixels, as the window system reports it.
    pub fn from_physical(value: PhysicalSize<u32>) -> (r: WindowSize)
        ensures
            r.0 == value.width as i32,
            r.1 == value.height as i32,
    {
        WindowSize(value.width as i32, value.height as i32)
    }
}

} // verus!
