//! The event dispatcher: the one entry point through which every
//! notification for a window passes on its way to the window's handler.

use crate::events::{classify_message, kind_of_message, EventKind, EventReply, MessageData, WinHandler};
use crate::geometry::{clamp_i32, get_window_dimension, ClientRect};
use crate::presentation::{blit_buffer_to_window, blit_plan, BlitRequest};
use crate::registry::{
    attach, live_state, phase_of, phase_rank, HandlePhase, RegistrationError, RegistryView, WindowState,
    WindowStateRegistry, WindowStateView,
};
use vstd::prelude::*;

verus! {

/// Why a window's creation has to be stopped.
#[derive(Clone, Copy, Debug, PartialEq, Eq, Structural)]
pub enum CreationFailure {
    /// The creation notification did not bring a state along.
    MalformedPayload,
    /// The state could not be registered.
    Registration(RegistrationError),
}

/// What the host is to be told about a notification.
#[derive(Clone, Copy, Debug, PartialEq, Eq, Structural)]
pub enum HostReply {
    /// The handler dealt with it; hand this result back.
    Handled(isize),
    /// Run the host's default processing and hand its result back.
    DefaultProcessing,
    /// Signal failure, so that the host gives up creating the window.
    AbortCreation(CreationFailure),
}

/// The result of dispatching one notification.
#[derive(Clone, Copy, Debug, PartialEq, Eq, Structural)]
pub struct Dispatch {
    /// What to tell the host.
    pub reply: HostReply,
    /// Whether the window's surface is to be presented once more, on top of
    /// what the frame loop presents anyway.
    pub present: bool,
}

/// A notification read from the host, alive only while it is dispatched.
pub struct PendingEvent<H> {
    pub kind: EventKind,
    pub data: MessageData,
    /// The state that a creation notification brings for the new window.
    pub creation: Option<WindowState<H>>,
}

impl<H> PendingEvent<H> {
    /// The event for a host message, with the state it carries if it is a
    /// creation notification.
    pub fn new(data: MessageData, creation: Option<WindowState<H>>) -> (event: Self)
        ensures
            event.kind == kind_of_message(data.message),
            event.data == data,
            event.creation == creation,
    {
        PendingEvent { kind: classify_message(data.message), data, creation }
    }
}

/// The ways a notification can go.
#[derive(Clone, Copy, Debug, PartialEq, Eq, Structural)]
pub enum Route {
    /// Leave it to the host's default processing.
    Fallback,
    /// Register the state the notification brought.
    Register,
    /// Refuse the creation.
    Refuse(CreationFailure),
    /// Hand it to the window's handler.
    Forward,
}

/// Which way a notification of `kind` goes for a handle in `phase`.
///
/// A handle that was torn down gets default processing whatever arrives. A
/// creation notification must bring a state, and registers it unless the
/// handle is registered already. Anything else reaches the handler while the
/// handle is registered and gets default processing before that.
pub open spec fn route(phase: HandlePhase, kind: EventKind, has_payload: bool) -> Route {
    if phase is TornDown {
        Route::Fallback
    } else if kind is Create {
        if !has_payload {
            Route::Refuse(CreationFailure::MalformedPayload)
        } else if phase is Registered {
            Route::Refuse(CreationFailure::Registration(RegistrationError::DuplicateHandle))
        } else {
            Route::Register
        }
    } else if phase is Registered {
        Route::Forward
    } else {
        Route::Fallback
    }
}

/// The phase of a handle once a notification of `kind` was dispatched for
/// it: a registered state makes it `Registered`, a forwarded destroy
/// notification makes it `TornDown`, and nothing else moves it.
pub open spec fn phase_after(phase: HandlePhase, kind: EventKind, has_payload: bool) -> HandlePhase {
    match route(phase, kind, has_payload) {
        Route::Register => HandlePhase::Registered,
        Route::Forward => if kind is DestroyPending {
            HandlePhase::TornDown
        } else {
            HandlePhase::Registered
        },
        _ => phase,
    }
}

/// The dispatch that leaves everything to the host.
pub open spec fn fallback() -> Dispatch {
    Dispatch { reply: HostReply::DefaultProcessing, present: false }
}

/// The dispatch that stops a creation.
pub open spec fn refusal(failure: CreationFailure) -> Dispatch {
    Dispatch { reply: HostReply::AbortCreation(failure), present: false }
}

/// The dispatch that follows from a handler's `reply` to a notification of
/// `kind`: the handler's result goes to the host, silence means default
/// processing, and a paint notification asks for one more presentation.
pub open spec fn settled(kind: EventKind, reply: EventReply) -> Dispatch {
    Dispatch {
        reply: match reply {
            EventReply::Handled(result) => HostReply::Handled(result),
            EventReply::NotHandled => HostReply::DefaultProcessing,
        },
        present: kind is Paint,
    }
}

/// The registry after a notification of `kind` was forwarded to the handler
/// of `hwnd`, who is left as `handler`: the state keeps its handle and its
/// surface, and a destroy notification tears the registration down.
pub open spec fn after_forward<H>(
    m: RegistryView<H>,
    hwnd: usize,
    kind: EventKind,
    handler: H,
) -> RegistryView<H> {
    if kind is DestroyPending {
        m.insert(hwnd, None)
    } else {
        m.insert(hwnd, Some(WindowStateView { handler, ..m[hwnd]->0 }))
    }
}

/// What holds when a notification of `kind` with `data` was forwarded to the
/// handler of `hwnd` in `m`: the handler was told exactly that, it reacted
/// by becoming `handler` and answering `reply`, the registry is `after` and
/// the dispatch is `outcome`.
pub open spec fn forwarded<H: WinHandler>(
    m: RegistryView<H>,
    hwnd: usize,
    kind: EventKind,
    data: MessageData,
    handler: H,
    reply: EventReply,
    after: RegistryView<H>,
    outcome: Dispatch,
) -> bool {
    &&& m[hwnd]->0.handler.reacts(hwnd, kind, data, &handler, reply)
    &&& after == after_forward(m, hwnd, kind, handler)
    &&& outcome == settled(kind, reply)
}

/// Turns a handler's reply into the dispatch for the host.
pub fn settle(kind: EventKind, reply: EventReply) -> (outcome: Dispatch)
    ensures
        outcome == settled(kind, reply),
{
    Dispatch {
        reply: match reply {
            EventReply::Handled(result) => HostReply::Handled(result),
            EventReply::NotHandled => HostReply::DefaultProcessing,
        },
        present: match kind {
            EventKind::Paint => true,
            _ => false,
        },
    }
}

/// Dispatches one notification for the window `hwnd`.
///
/// The way it goes is `route` of the handle's phase, the event's kind and
/// whether it brought a state. Only a forwarded notification reaches the
/// handler; its answer is whatever the handler gives, and the dispatch is
/// `settled` of that answer. Missing state is never an error here: it means
/// default processing.
pub fn dispatch<H: WinHandler>(
    registry: &mut WindowStateRegistry<H>,
    hwnd: usize,
    event: PendingEvent<H>,
) -> (outcome: Dispatch)
    ensures
        final(registry).wf(),
        phase_of(final(registry)@, hwnd) == phase_after(
            phase_of(old(registry)@, hwnd),
            event.kind,
            event.creation is Some,
        ),
        final(registry)@.remove(hwnd) == old(registry)@.remove(hwnd),
        match route(phase_of(old(registry)@, hwnd), event.kind, event.creation is Some) {
            Route::Fallback => outcome == fallback() && final(registry)@ == old(registry)@,
            Route::Refuse(failure) => outcome == refusal(failure) && final(registry)@ == old(
                registry,
            )@,
            Route::Register => outcome == fallback() && final(registry)@ == old(registry)@.insert(
                hwnd,
                Some(attach(event.creation->0@, hwnd)),
            ),
            Route::Forward => exists|handler: H, reply: EventReply|
                forwarded(
                    old(registry)@,
                    hwnd,
                    event.kind,
                    event.data,
                    handler,
                    reply,
                    final(registry)@,
                    outcome,
                ),
        },
{
    let PendingEvent { kind, data, creation } = event;
    let phase = registry.phase(hwnd);
    let outcome = match phase {
        HandlePhase::TornDown => Dispatch { reply: HostReply::DefaultProcessing, present: false },
        _ => match kind {
            EventKind::Create => match creation {
                None => Dispatch {
                    reply: HostReply::AbortCreation(CreationFailure::MalformedPayload),
                    present: false,
                },
                Some(state) => match registry.register(hwnd, state) {
                    Ok(_) => Dispatch { reply: HostReply::DefaultProcessing, present: false },
                    Err(error) => Dispatch {
                        reply: HostReply::AbortCreation(CreationFailure::Registration(error)),
                        present: false,
                    },
                },
            },
            _ => match registry.checkout(hwnd) {
                None => Dispatch { reply: HostReply::DefaultProcessing, present: false },
                Some(state) => {
                    let mut state = state;
                    let reply = state.handler_mut().on_event(hwnd, kind, data);
                    registry.checkin(hwnd, state);
                    match kind {
                        EventKind::DestroyPending => {
                            registry.unregister(hwnd);
                        },
                        _ => {},
                    }
                    let outcome = settle(kind, reply);
                    proof {
                        assert(registry@ =~= after_forward(
                            old(registry)@,
                            hwnd,
                            kind,
                            state@.handler,
                        ));
                        assert(forwarded(
                            old(registry)@,
                            hwnd,
                            kind,
                            data,
                            state@.handler,
                            reply,
                            registry@,
                            outcome,
                        ));
                    }
                    outcome
                },
            },
        },
    };
    assert(registry@.remove(hwnd) =~= old(registry)@.remove(hwnd));
    outcome
}

/// The copy that a paint notification for `hwnd` asks for, given the client
/// rectangle measured inside the paint session: the window's surface as it
/// is, stretched over the whole client area. There is none when the window
/// has no live state or the area has no pixels.
pub open spec fn paint_plan<H>(m: RegistryView<H>, hwnd: usize, client: ClientRect) -> Option<
    BlitRequest,
> {
    match live_state(m, hwnd) {
        Some(state) => blit_plan(
            state.surface,
            clamp_i32(client.right - client.left),
            clamp_i32(client.bottom - client.top),
        ),
        None => None,
    }
}

/// Plans the one more presentation that a dispatch asked for.
pub fn paint_request<H>(registry: &WindowStateRegistry<H>, hwnd: usize, client: ClientRect) -> (request:
    Option<BlitRequest>)
    ensures
        request == paint_plan(registry@, hwnd, client),
{
    let dimension = get_window_dimension(client);
    match registry.lookup(hwnd) {
        Some(handle) => match registry.resolve(&handle) {
            Some(state) => blit_buffer_to_window(
                state.surface(),
                dimension.width,
                dimension.height,
            ),
            None => None,
        },
        None => None,
    }
}

/// A handle that was torn down stays torn down: whatever arrives for it
/// gets default processing, and no state is ever registered for it again.
pub proof fn lemma_torn_down_is_terminal(kind: EventKind, has_payload: bool)
    ensures
        route(HandlePhase::TornDown, kind, has_payload) == Route::Fallback,
        phase_after(HandlePhase::TornDown, kind, has_payload) == HandlePhase::TornDown,
{
}

/// No notification moves a handle backwards in its life.
pub proof fn lemma_phase_never_goes_back(phase: HandlePhase, kind: EventKind, has_payload: bool)
    ensures
        phase_rank(phase) <= phase_rank(phase_after(phase, kind, has_payload)),
{
}

/// A creation either registers the state or is refused, and a refused
/// creation leaves the handle where it was: no handle is left half
/// registered.
pub proof fn lemma_creation_registers_or_fails(phase: HandlePhase, has_payload: bool)
    requires
        !(phase is TornDown),
    ensures
        route(phase, EventKind::Create, has_payload) is Register || route(
            phase,
            EventKind::Create,
            has_payload,
        ) is Refuse,
        route(phase, EventKind::Create, has_payload) is Register <==> (phase is Unregistered
            && has_payload),
        route(phase, EventKind::Create, has_payload) is Refuse ==> phase_after(
            phase,
            EventKind::Create,
            has_payload,
        ) == phase,
{
}

/// A notification that finds no live state is not an error: it gets default
/// processing and changes nothing.
pub proof fn lemma_missing_state_falls_back(phase: HandlePhase, kind: EventKind, has_payload: bool)
    requires
        !(phase is Registered),
        !(kind is Create),
    ensures
        route(phase, kind, has_payload) == Route::Fallback,
        phase_after(phase, kind, has_payload) == phase,
{
}

/// While a handle is registered, everything but a creation reaches its
/// handler, and only a destroy notification ends the registration.
pub proof fn lemma_registered_handle_is_served(kind: EventKind, has_payload: bool)
    requires
        !(kind is Create),
    ensures
        route(HandlePhase::Registered, kind, has_payload) == Route::Forward,
        phase_after(HandlePhase::Registered, kind, has_payload) is TornDown <==> kind
            is DestroyPending,
{
}

} // verus!
