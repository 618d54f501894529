//! Per-window state, event dispatch and an off-screen pixel surface for a
//! single native window that is redrawn by a continuous frame loop.
//!
//! The host's windowing calls are not made here. The library decides: what
//! the surface holds, what is copied where, which way a notification goes,
//! what the loop does next. A thin program around it performs the calls and
//! reports their results back.

pub mod dispatcher;
pub mod events;
pub mod frame_loop;
pub mod geometry;
pub mod presentation;
pub mod rasterizer;
pub mod registry;
pub mod surface;
pub mod text;

pub use dispatcher::{
    dispatch, paint_request, settle, CreationFailure, Dispatch, HostReply, PendingEvent,
};
pub use events::{classify_message, EventKind, EventReply, GameState, MessageData, WinHandler};
pub use frame_loop::{FrameLoop, LoopAction, LoopEvent};
pub use geometry::{get_window_dimension, ClientRect, Rect, WindowDimension};
pub use presentation::{blit_buffer_to_window, BitmapInfo, BlitRequest};
pub use rasterizer::render_weird_gradient;
pub use registry::{
    HandlePhase, RegistrationError, WindowHandle, WindowState, WindowStateRegistry,
};
pub use surface::{GameOffScreenBuffer, Pixel, RowOrder};
pub use text::to_wstring;
