//! Notifications that the host delivers to a window, and the interface of
//! the behaviour object that reacts to them.

use vstd::prelude::*;

verus! {

/// Host message: the window is being created.
pub const WM_CREATE: u32 = 0x0001;

/// Host message: the window's client area needs repainting.
pub const WM_PAINT: u32 = 0x000F;

/// Host message: the application was asked to quit.
pub const WM_QUIT: u32 = 0x0012;

/// Host message: the last one a window receives before it is destroyed.
pub const WM_NCDESTROY: u32 = 0x0082;

/// What a notification is about, as far as the core cares.
#[derive(Clone, Copy, Debug, PartialEq, Eq, Structural)]
pub enum EventKind {
    /// The window is being created and brings its state along.
    Create,
    /// The client area needs repainting.
    Paint,
    /// The window is about to be destroyed.
    DestroyPending,
    /// Anything else.
    Other,
}

/// The raw content of a notification, exactly as the host delivered it.
#[derive(Clone, Copy, Debug, PartialEq, Eq, Structural)]
pub struct MessageData {
    pub message: u32,
    pub wparam: usize,
    pub lparam: isize,
}

/// A handler's answer to a notification.
#[derive(Clone, Copy, Debug, PartialEq, Eq, Structural)]
pub enum EventReply {
    /// The handler dealt with it; the value is the result for the host.
    Handled(isize),
    /// The handler has nothing to say; the host's default processing applies.
    NotHandled,
}

/// The kind of the host message with code `message`.
pub open spec fn kind_of_message(message: u32) -> EventKind {
    if message == WM_CREATE {
        EventKind::Create
    } else if message == WM_PAINT {
        EventKind::Paint
    } else if message == WM_NCDESTROY {
        EventKind::DestroyPending
    } else {
        EventKind::Other
    }
}

/// Sorts a host message code into the kinds the dispatcher tells apart.
pub fn classify_message(message: u32) -> (kind: EventKind)
    ensures
        kind == kind_of_message(message),
{
    if message == WM_CREATE {
        EventKind::Create
    } else if message == WM_PAINT {
        EventKind::Paint
    } else if message == WM_NCDESTROY {
        EventKind::DestroyPending
    } else {
        EventKind::Other
    }
}

/// The behaviour of a window: how it reacts to the notifications it gets.
pub trait WinHandler {
    /// What this handler may do with a notification: whether, told of
    /// `kind` and `data` for the window `hwnd`, it may end up as `after` and
    /// answer `reply`. Each handler says for itself what it allows; the
    /// dispatcher relies on nothing else. A handler that says nothing allows
    /// itself everything.
    open spec fn reacts(
        &self,
        hwnd: usize,
        kind: EventKind,
        data: MessageData,
        after: &Self,
        reply: EventReply,
    ) -> bool {
        true
    }

    /// Reacts to one notification for the window `hwnd`. The answer decides
    /// whether the host's default processing still runs.
    fn on_event(&mut self, hwnd: usize, kind: EventKind, data: MessageData) -> (reply: EventReply)
        ensures
            old(self).reacts(hwnd, kind, data, final(self), reply),
    ;
}

/// The handler of the demo window. It keeps no state and leaves every
/// notification to the host's default processing.
#[derive(Clone, Copy, Debug, PartialEq, Eq, Structural)]
pub struct GameState;

impl WinHandler for GameState {
    open spec fn reacts(
        &self,
        hwnd: usize,
        kind: EventKind,
        data: MessageData,
        after: &Self,
        reply: EventReply,
    ) -> bool {
        reply == EventReply::NotHandled
    }

    fn on_event(&mut self, hwnd: usize, kind: EventKind, data: MessageData) -> (reply: EventReply) {
        EventReply::NotHandled
    }
}

} // verus!
