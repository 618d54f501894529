//! The frame loop: render, present, drain the message queue, and decide when
//! the program ends. The loop itself runs outside; this is the part that
//! decides, one step at a time, what the loop is to do next.

use crate::events::{MessageData, WM_QUIT};
use crate::geometry::WindowDimension;
use crate::presentation::{blit_buffer_to_window, blit_plan, BlitRequest};
use crate::rasterizer::{
    gradient, gradient_channel, gradient_pixel, lemma_gradient_pixel, render_weird_gradient,
};
use crate::registry::{
    live_state, phase_of, HandlePhase, RegistrationError, RegistryView, WindowHandle,
    WindowStateRegistry, WindowStateView,
};
use crate::surface::{valid_dimensions, SurfaceView};
use vstd::prelude::*;

verus! {

/// What the host reports back to the loop.
#[derive(Clone, Copy, Debug, PartialEq, Eq, Structural)]
pub enum LoopEvent {
    /// The current size of the window's client area.
    ClientArea(WindowDimension),
    /// The next queued message, or `None` when the queue is empty.
    Message(Option<MessageData>),
}

/// What the loop asks of the host next.
#[derive(Clone, Copy, Debug, PartialEq, Eq, Structural)]
pub enum LoopAction {
    /// Start a frame: measure the client area and report it.
    QueryClientArea,
    /// Carry out the copy, then take the next queued message without waiting
    /// and report it.
    Present(BlitRequest),
    /// Nothing to show this frame: take the next queued message without
    /// waiting and report it.
    PollMessage,
    /// Hand the message just reported to the host's dispatch, then take the
    /// next queued message without waiting and report it.
    DispatchMessage,
    /// Leave the loop; the value is the program's exit status.
    Exit(i32),
}

/// Mathematical model of the loop's state.
pub struct FrameLoopView {
    /// The window the loop draws for.
    pub hwnd: usize,
    /// Scroll offsets of the frame to come.
    pub x_offset: int,
    pub y_offset: int,
    /// By how much the offsets move from one frame to the next.
    pub x_step: int,
    pub y_step: int,
    /// The exit status, once a quit notification has arrived.
    pub exit_code: Option<i32>,
}

/// The decisions of the frame loop for one window.
pub struct FrameLoop {
    hwnd: usize,
    x_offset: i32,
    y_offset: i32,
    x_step: i32,
    y_step: i32,
    exit_code: Option<i32>,
}

impl View for FrameLoop {
    type V = FrameLoopView;

    closed spec fn view(&self) -> FrameLoopView {
        FrameLoopView {
            hwnd: self.hwnd,
            x_offset: self.x_offset as int,
            y_offset: self.y_offset as int,
            x_step: self.x_step as int,
            y_step: self.y_step as int,
            exit_code: self.exit_code,
        }
    }
}

/// The sum of two 32-bit values, brought back into the 32-bit range by a
/// multiple of 2^32.
pub open spec fn wrap_i32(sum: int) -> int {
    if sum > i32::MAX {
        sum - 0x1_0000_0000
    } else if sum < i32::MIN {
        sum + 0x1_0000_0000
    } else {
        sum
    }
}

/// The exit status that a quit notification carries.
pub open spec fn exit_status(data: MessageData) -> i32 {
    data.wparam as i32
}

/// The surface a frame is drawn on: the old one where it already has the
/// size of the client area or no surface of that size can exist, else a
/// fresh one of the client area's size.
pub open spec fn fitted(v: SurfaceView, client: WindowDimension) -> SurfaceView {
    if (v.width != client.width || v.height != client.height) && valid_dimensions(
        client.width as int,
        client.height as int,
        client.width * 4,
    ) {
        SurfaceView::blank(client.width as int, client.height as int, client.width * 4, v.row_order)
    } else {
        v
    }
}

/// The surface once the frame for `client` is drawn on it.
pub open spec fn frame_of(l: FrameLoopView, v: SurfaceView, client: WindowDimension) -> SurfaceView {
    gradient(fitted(v, client), l.x_offset, l.y_offset)
}

/// The loop's state after it has drawn a frame.
pub open spec fn advanced(l: FrameLoopView) -> FrameLoopView {
    FrameLoopView {
        x_offset: wrap_i32(l.x_offset + l.x_step),
        y_offset: wrap_i32(l.y_offset + l.y_step),
        ..l
    }
}

/// The outcome of one step: the new loop state, the new registry and what
/// the host is asked to do.
pub struct Step<H> {
    pub frame_loop: FrameLoopView,
    pub registry: RegistryView<H>,
    pub action: LoopAction,
}

/// One step of the loop.
///
/// After a quit notification nothing happens any more: every step answers
/// `Exit`. Before that, a report of the client area starts a frame: the
/// window's surface is fitted to the area, drawn, and presented unless the
/// area has no pixels; a window without live state gets no frame. A report
/// of the queue either ends the loop (a quit notification), has the message
/// dispatched, or, when the queue is empty, starts the next frame.
pub open spec fn step_spec<H>(l: FrameLoopView, m: RegistryView<H>, event: LoopEvent) -> Step<H> {
    if l.exit_code is Some {
        Step { frame_loop: l, registry: m, action: LoopAction::Exit(l.exit_code->0) }
    } else {
        match event {
            LoopEvent::Message(None) => Step {
                frame_loop: l,
                registry: m,
                action: LoopAction::QueryClientArea,
            },
            LoopEvent::Message(Some(data)) => if data.message == WM_QUIT {
                Step {
                    frame_loop: FrameLoopView { exit_code: Some(exit_status(data)), ..l },
                    registry: m,
                    action: LoopAction::Exit(exit_status(data)),
                }
            } else {
                Step { frame_loop: l, registry: m, action: LoopAction::DispatchMessage }
            },
            LoopEvent::ClientArea(client) => match live_state(m, l.hwnd) {
                None => Step { frame_loop: l, registry: m, action: LoopAction::PollMessage },
                Some(state) => Step {
                    frame_loop: advanced(l),
                    registry: m.insert(
                        l.hwnd,
                        Some(WindowStateView { surface: frame_of(l, state.surface, client), ..state }),
                    ),
                    action: match blit_plan(
                        frame_of(l, state.surface, client),
                        client.width as int,
                        client.height as int,
                    ) {
                        Some(request) => LoopAction::Present(request),
                        None => LoopAction::PollMessage,
                    },
                },
            },
        }
    }
}

impl FrameLoop {
    /// A loop for the window that `window` refers to, starting at offset
    /// zero and moving by the given steps each frame. Fails with
    /// `MissingHandle` when the window has no live registration.
    pub fn new<H>(
        registry: &WindowStateRegistry<H>,
        window: &WindowHandle,
        x_step: i32,
        y_step: i32,
    ) -> (made: Result<FrameLoop, RegistrationError>)
        ensures
            made is Ok <==> (window@ matches Some(hwnd) && phase_of(registry@, hwnd) is Registered),
            made matches Ok(frame_loop) ==> frame_loop@ == (FrameLoopView {
                hwnd: window@->0,
                x_offset: 0,
                y_offset: 0,
                x_step: x_step as int,
                y_step: y_step as int,
                exit_code: None,
            }),
            made matches Err(error) ==> error == RegistrationError::MissingHandle,
    {
        match window.hwnd() {
            Some(hwnd) => match registry.phase(hwnd) {
                HandlePhase::Registered => Ok(
                    FrameLoop { hwnd, x_offset: 0, y_offset: 0, x_step, y_step, exit_code: None },
                ),
                _ => Err(RegistrationError::MissingHandle),
            },
            None => Err(RegistrationError::MissingHandle),
        }
    }

    /// The window the loop draws for.
    pub fn hwnd(&self) -> (hwnd: usize)
        ensures
            hwnd == self@.hwnd,
    {
        self.hwnd
    }

    /// The scroll offsets of the frame to come.
    pub fn offsets(&self) -> (offsets: (i32, i32))
        ensures
            offsets.0 == self@.x_offset,
            offsets.1 == self@.y_offset,
    {
        (self.x_offset, self.y_offset)
    }

    /// The exit status, once a quit notification has arrived.
    pub fn exit_code(&self) -> (code: Option<i32>)
        ensures
            code == self@.exit_code,
    {
        self.exit_code
    }

    /// Takes what the host reports and decides what it is to do next.
    pub fn step<H>(&mut self, registry: &mut WindowStateRegistry<H>, event: LoopEvent) -> (action:
        LoopAction)
        ensures
            final(self)@ == step_spec(old(self)@, old(registry)@, event).frame_loop,
            final(registry)@ == step_spec(old(self)@, old(registry)@, event).registry,
            action == step_spec(old(self)@, old(registry)@, event).action,
            final(registry).wf(),
    {
        proof {
            use_type_invariant(&*registry);
            registry.lemma_inv_implies_wf();
        }
        match self.exit_code {
            Some(code) => {
                return LoopAction::Exit(code);
            },
            None => {},
        }
        match event {
            LoopEvent::Message(None) => LoopAction::QueryClientArea,
            LoopEvent::Message(Some(data)) => {
                if data.message == WM_QUIT {
                    let code = #[verifier::truncate]
                    (data.wparam as i32);
                    self.exit_code = Some(code);
                    LoopAction::Exit(code)
                } else {
                    LoopAction::DispatchMessage
                }
            },
            LoopEvent::ClientArea(client) => match registry.checkout(self.hwnd) {
                None => LoopAction::PollMessage,
                Some(state) => {
                    let mut state = state;
                    let ghost before = state@;
                    let surface = state.surface_mut();
                    if surface.width() != client.width || surface.height() != client.height {
                        surface.resize(client.width, client.height);
                    }
                    assert(surface@ == fitted(before.surface, client));
                    render_weird_gradient(surface, self.x_offset, self.y_offset);
                    let plan = blit_buffer_to_window(surface, client.width, client.height);
                    registry.checkin(self.hwnd, state);
                    assert(registry@ =~= step_spec(old(self)@, old(registry)@, event).registry);
                    self.x_offset = self.x_offset.wrapping_add(self.x_step);
                    self.y_offset = self.y_offset.wrapping_add(self.y_step);
                    match plan {
                        Some(request) => LoopAction::Present(request),
                        None => LoopAction::PollMessage,
                    }
                },
            },
        }
    }
}

/// A quit notification ends the loop in the very step that reads it: the
/// answer is `Exit` with the status the notification carries, and neither
/// the registry nor the offsets are touched on the way.
pub proof fn lemma_quit_ends_the_loop<H>(l: FrameLoopView, m: RegistryView<H>, data: MessageData)
    requires
        l.exit_code is None,
        data.message == WM_QUIT,
    ensures
        step_spec(l, m, LoopEvent::Message(Some(data))).action == LoopAction::Exit(
            exit_status(data),
        ),
        step_spec(l, m, LoopEvent::Message(Some(data))).registry == m,
        step_spec(l, m, LoopEvent::Message(Some(data))).frame_loop == (FrameLoopView {
            exit_code: Some(exit_status(data)),
            ..l
        }),
{
}

/// Once the loop has ended it stays ended: whatever is reported, the answer
/// is `Exit` with the same status, and nothing is drawn or changed.
pub proof fn lemma_exit_is_final<H>(l: FrameLoopView, m: RegistryView<H>, event: LoopEvent)
    requires
        l.exit_code is Some,
    ensures
        step_spec(l, m, event).action == LoopAction::Exit(l.exit_code->0),
        step_spec(l, m, event).registry == m,
        step_spec(l, m, event).frame_loop == l,
{
}

/// Nothing but a quit notification ends the loop.
pub proof fn lemma_only_quit_exits<H>(l: FrameLoopView, m: RegistryView<H>, event: LoopEvent)
    requires
        l.exit_code is None,
        step_spec(l, m, event).action is Exit,
    ensures
        event matches LoopEvent::Message(Some(data)) && data.message == WM_QUIT,
{
}

/// The loop never waits for input: an empty queue starts the next frame.
pub proof fn lemma_empty_queue_starts_a_frame<H>(l: FrameLoopView, m: RegistryView<H>)
    requires
        l.exit_code is None,
    ensures
        step_spec(l, m, LoopEvent::Message(None)).action == LoopAction::QueryClientArea,
        step_spec(l, m, LoopEvent::Message(None)).registry == m,
        step_spec(l, m, LoopEvent::Message(None)).frame_loop == l,
{
}

/// A frame follows the client area: when the area has a size that a surface
/// can have, the window's surface has exactly that size once the frame is
/// drawn, every pixel shows the pattern at the loop's offsets, and the frame
/// is presented.
pub proof fn lemma_frame_follows_client_area<H>(
    l: FrameLoopView,
    m: RegistryView<H>,
    client: WindowDimension,
    x: int,
    y: int,
)
    requires
        l.exit_code is None,
        live_state(m, l.hwnd) is Some,
        live_state(m, l.hwnd)->0.surface.wf(),
        valid_dimensions(client.width as int, client.height as int, client.width * 4),
        0 <= x < client.width,
        0 <= y < client.height,
    ensures
        live_state(step_spec(l, m, LoopEvent::ClientArea(client)).registry, l.hwnd) is Some,
        live_state(
            step_spec(l, m, LoopEvent::ClientArea(client)).registry,
            l.hwnd,
        )->0.surface.wf(),
        live_state(
            step_spec(l, m, LoopEvent::ClientArea(client)).registry,
            l.hwnd,
        )->0.surface.width == client.width,
        live_state(
            step_spec(l, m, LoopEvent::ClientArea(client)).registry,
            l.hwnd,
        )->0.surface.height == client.height,
        live_state(
            step_spec(l, m, LoopEvent::ClientArea(client)).registry,
            l.hwnd,
        )->0.surface.pixel(x, y) == gradient_pixel(x, y, l.x_offset, l.y_offset),
        step_spec(l, m, LoopEvent::ClientArea(client)).action is Present,
        step_spec(l, m, LoopEvent::ClientArea(client)).frame_loop == advanced(l),
{
    let state = live_state(m, l.hwnd)->0;
    let fit = fitted(state.surface, client);
    assert(fit.wf() && fit.width == client.width && fit.height == client.height) by {
        if state.surface.width != client.width || state.surface.height != client.height {
            assert(fit.bytes.len() == fit.pitch * fit.height);
        }
    }
    lemma_gradient_pixel(fit, l.x_offset, l.y_offset, x, y);
}

/// A frame changes the surface of the loop's own window and nothing else in
/// the registry, and a window without live state gets no frame at all.
pub proof fn lemma_frame_touches_one_window<H>(
    l: FrameLoopView,
    m: RegistryView<H>,
    client: WindowDimension,
    other: usize,
)
    requires
        l.exit_code is None,
    ensures
        other != l.hwnd ==> live_state(
            step_spec(l, m, LoopEvent::ClientArea(client)).registry,
            other,
        ) == live_state(m, other),
        phase_of(step_spec(l, m, LoopEvent::ClientArea(client)).registry, other) == phase_of(
            m,
            other,
        ),
        live_state(m, l.hwnd) is None ==> step_spec(l, m, LoopEvent::ClientArea(client)).registry
            == m && step_spec(l, m, LoopEvent::ClientArea(client)).action
            == LoopAction::PollMessage,
{
}

/// Where the loop stands after the host has reported `events` one after the
/// other. Before the first report the loop asks for the client area.
pub open spec fn run_spec<H>(l: FrameLoopView, m: RegistryView<H>, events: Seq<LoopEvent>) -> Step<
    H,
>
    decreases events.len(),
{
    if events.len() == 0 {
        Step { frame_loop: l, registry: m, action: LoopAction::QueryClientArea }
    } else {
        let so_far = run_spec(l, m, events.drop_last());
        step_spec(so_far.frame_loop, so_far.registry, events.last())
    }
}

/// Nothing follows a quit notification: whatever the host reports after it,
/// the loop stands where the quit left it, with the same surfaces, the same
/// offsets and the same answer.
pub proof fn lemma_nothing_follows_a_quit<H>(
    l: FrameLoopView,
    m: RegistryView<H>,
    before: Seq<LoopEvent>,
    data: MessageData,
    after: Seq<LoopEvent>,
)
    requires
        data.message == WM_QUIT,
    ensures
        run_spec(l, m, before.push(LoopEvent::Message(Some(data))) + after) == run_spec(
            l,
            m,
            before.push(LoopEvent::Message(Some(data))),
        ),
        run_spec(l, m, before.push(LoopEvent::Message(Some(data))) + after).action is Exit,
        run_spec(l, m, before.push(LoopEvent::Message(Some(data))) + after).registry == run_spec(
            l,
            m,
            before,
        ).registry,
    decreases after.len(),
{
    let quit = before.push(LoopEvent::Message(Some(data)));
    assert(quit.drop_last() == before);
    assert(quit.last() == LoopEvent::Message(Some(data)));
    let at_quit = run_spec(l, m, quit);
    assert(at_quit.frame_loop.exit_code is Some);
    if after.len() == 0 {
        assert(quit + after == quit);
    } else {
        lemma_nothing_follows_a_quit(l, m, before, data, after.drop_last());
        assert((quit + after).drop_last() == quit + after.drop_last());
        assert((quit + after).last() == after.last());
    }
}

/// Wrapping an offset does not show: the pattern drawn at a wrapped offset
/// is the pattern of the unwrapped sum.
pub proof fn lemma_wrapped_offset_draws_the_same(coordinate: int, offset: int, step: int)
    requires
        i32::MIN <= offset <= i32::MAX,
        i32::MIN <= step <= i32::MAX,
    ensures
        i32::MIN <= wrap_i32(offset + step) <= i32::MAX,
        gradient_channel(coordinate, wrap_i32(offset + step)) == gradient_channel(
            coordinate,
            offset + step,
        ),
{
}

} // verus!
