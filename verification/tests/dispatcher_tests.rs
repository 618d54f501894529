use handmade_window::events::{WM_CREATE, WM_NCDESTROY, WM_PAINT, WM_QUIT};
use handmade_window::{
    classify_message, dispatch, paint_request, settle, ClientRect, Rect, CreationFailure, Dispatch, EventKind, EventReply,
    GameOffScreenBuffer, GameState, HandlePhase, HostReply, MessageData, PendingEvent,
    RegistrationError, RowOrder, WinHandler, WindowState, WindowStateRegistry,
};

/// Remembers what it was told and answers as configured.
struct Recorder {
    seen: Vec<(usize, EventKind, MessageData)>,
    answer: EventReply,
}

impl WinHandler for Recorder {
    fn on_event(&mut self, hwnd: usize, kind: EventKind, data: MessageData) -> EventReply {
        self.seen.push((hwnd, kind, data));
        self.answer
    }
}

fn recorder(answer: EventReply, width: i32) -> WindowState<Recorder> {
    let surface = GameOffScreenBuffer::new(width, 2, RowOrder::TopDown).unwrap();
    WindowState::new(Recorder { seen: Vec::new(), answer }, surface)
}

fn message(message: u32) -> MessageData {
    MessageData { message, wparam: 11, lparam: -22 }
}

fn seen(registry: &WindowStateRegistry<Recorder>, hwnd: usize) -> Vec<(usize, EventKind, MessageData)> {
    let handle = registry.lookup(hwnd).expect("registered");
    registry.resolve(&handle).unwrap().handler().seen.clone()
}

const DEFAULT: Dispatch = Dispatch { reply: HostReply::DefaultProcessing, present: false };

#[test]
fn message_codes_are_classified() {
    assert_eq!(classify_message(0x0001), EventKind::Create);
    assert_eq!(classify_message(0x000F), EventKind::Paint);
    assert_eq!(classify_message(0x0082), EventKind::DestroyPending);
    assert_eq!(classify_message(0x0000), EventKind::Other);
    assert_eq!(classify_message(0x0002), EventKind::Other);
    assert_eq!(classify_message(0x0005), EventKind::Other);
    assert_eq!(classify_message(0x0012), EventKind::Other);
    assert_eq!(classify_message(0x0081), EventKind::Other);
    assert_eq!(classify_message(u32::MAX), EventKind::Other);
    assert_eq!((WM_CREATE, WM_PAINT, WM_QUIT, WM_NCDESTROY), (1, 15, 18, 130));
}

#[test]
fn pending_event_takes_its_kind_from_the_message() {
    let e: PendingEvent<GameState> = PendingEvent::new(message(WM_PAINT), None);
    assert_eq!(e.kind, EventKind::Paint);
    assert_eq!(e.data, message(WM_PAINT));
    assert!(e.creation.is_none());
    let c: PendingEvent<Recorder> =
        PendingEvent::new(message(WM_CREATE), Some(recorder(EventReply::NotHandled, 3)));
    assert_eq!(c.kind, EventKind::Create);
    assert!(c.creation.is_some());
}

#[test]
fn settle_maps_each_reply() {
    assert_eq!(
        settle(EventKind::Other, EventReply::Handled(5)),
        Dispatch { reply: HostReply::Handled(5), present: false }
    );
    assert_eq!(settle(EventKind::Other, EventReply::NotHandled), DEFAULT);
    assert_eq!(
        settle(EventKind::Paint, EventReply::NotHandled),
        Dispatch { reply: HostReply::DefaultProcessing, present: true }
    );
    assert_eq!(
        settle(EventKind::Paint, EventReply::Handled(-1)),
        Dispatch { reply: HostReply::Handled(-1), present: true }
    );
    assert_eq!(
        settle(EventKind::DestroyPending, EventReply::Handled(0)),
        Dispatch { reply: HostReply::Handled(0), present: false }
    );
}

#[test]
fn creation_registers_the_state() {
    let mut registry = WindowStateRegistry::new();
    let event = PendingEvent::new(message(WM_CREATE), Some(recorder(EventReply::Handled(1), 5)));
    assert_eq!(dispatch(&mut registry, 42, event), DEFAULT);
    assert_eq!(registry.phase(42), HandlePhase::Registered);
    let handle = registry.lookup(42).unwrap();
    let state = registry.resolve(&handle).unwrap();
    assert_eq!(state.native_handle(), Some(42));
    assert_eq!(state.surface().width(), 5);
    // the creation itself is not forwarded to the handler
    assert!(state.handler().seen.is_empty());
}

#[test]
fn creation_without_state_is_refused() {
    let mut registry: WindowStateRegistry<Recorder> = WindowStateRegistry::new();
    let event = PendingEvent::new(message(WM_CREATE), None);
    assert_eq!(
        dispatch(&mut registry, 42, event),
        Dispatch {
            reply: HostReply::AbortCreation(CreationFailure::MalformedPayload),
            present: false
        }
    );
    assert_eq!(registry.phase(42), HandlePhase::Unregistered);
}

#[test]
fn second_creation_is_refused_and_first_state_stays() {
    let mut registry = WindowStateRegistry::new();
    let first = PendingEvent::new(message(WM_CREATE), Some(recorder(EventReply::NotHandled, 5)));
    dispatch(&mut registry, 42, first);
    let second = PendingEvent::new(message(WM_CREATE), Some(recorder(EventReply::NotHandled, 9)));
    assert_eq!(
        dispatch(&mut registry, 42, second),
        Dispatch {
            reply: HostReply::AbortCreation(CreationFailure::Registration(
                RegistrationError::DuplicateHandle
            )),
            present: false
        }
    );
    let handle = registry.lookup(42).unwrap();
    assert_eq!(registry.resolve(&handle).unwrap().surface().width(), 5);
    // a creation notification without state for a registered handle is malformed
    let third: PendingEvent<Recorder> = PendingEvent::new(message(WM_CREATE), None);
    assert_eq!(
        dispatch(&mut registry, 42, third).reply,
        HostReply::AbortCreation(CreationFailure::MalformedPayload)
    );
    assert_eq!(registry.phase(42), HandlePhase::Registered);
}

#[test]
fn notification_before_creation_falls_back() {
    let mut registry: WindowStateRegistry<Recorder> = WindowStateRegistry::new();
    for code in [0x0024, WM_PAINT, WM_NCDESTROY, 0x0081] {
        let event = PendingEvent::new(message(code), None);
        assert_eq!(dispatch(&mut registry, 42, event), DEFAULT);
        assert_eq!(registry.phase(42), HandlePhase::Unregistered);
    }
}

#[test]
fn handled_notification_returns_the_handlers_result() {
    let mut registry = WindowStateRegistry::new();
    registry.register(42, recorder(EventReply::Handled(77), 5)).unwrap();
    let outcome = dispatch(&mut registry, 42, PendingEvent::new(message(0x0005), None));
    assert_eq!(outcome, Dispatch { reply: HostReply::Handled(77), present: false });
    assert_eq!(seen(&registry, 42), vec![(42, EventKind::Other, message(0x0005))]);
}

#[test]
fn unhandled_notification_falls_back() {
    let mut registry = WindowStateRegistry::new();
    registry.register(42, recorder(EventReply::NotHandled, 5)).unwrap();
    let outcome = dispatch(&mut registry, 42, PendingEvent::new(message(0x0010), None));
    assert_eq!(outcome, DEFAULT);
    assert_eq!(seen(&registry, 42), vec![(42, EventKind::Other, message(0x0010))]);
}

#[test]
fn paint_asks_for_one_more_presentation() {
    let mut registry = WindowStateRegistry::new();
    registry.register(42, recorder(EventReply::NotHandled, 5)).unwrap();
    let outcome = dispatch(&mut registry, 42, PendingEvent::new(message(WM_PAINT), None));
    assert_eq!(outcome, Dispatch { reply: HostReply::DefaultProcessing, present: true });
    assert_eq!(seen(&registry, 42), vec![(42, EventKind::Paint, message(WM_PAINT))]);
    assert_eq!(registry.phase(42), HandlePhase::Registered);
}

#[test]
fn forwarding_keeps_handle_and_surface() {
    let mut registry = WindowStateRegistry::new();
    registry.register(42, recorder(EventReply::Handled(0), 5)).unwrap();
    for _ in 0..3 {
        dispatch(&mut registry, 42, PendingEvent::new(message(0x0200), None));
    }
    let handle = registry.lookup(42).unwrap();
    let state = registry.resolve(&handle).unwrap();
    assert_eq!(state.native_handle(), Some(42));
    assert_eq!(state.surface().width(), 5);
    assert_eq!(state.handler().seen.len(), 3);
}

#[test]
fn forwarding_reaches_only_the_addressed_window() {
    let mut registry = WindowStateRegistry::new();
    registry.register(1, recorder(EventReply::Handled(1), 5)).unwrap();
    registry.register(2, recorder(EventReply::Handled(2), 6)).unwrap();
    let outcome = dispatch(&mut registry, 2, PendingEvent::new(message(0x0200), None));
    assert_eq!(outcome.reply, HostReply::Handled(2));
    assert!(seen(&registry, 1).is_empty());
    assert_eq!(seen(&registry, 2).len(), 1);
}

#[test]
fn destroy_is_forwarded_then_tears_down() {
    let mut registry = WindowStateRegistry::new();
    registry.register(42, recorder(EventReply::Handled(3), 5)).unwrap();
    let outcome = dispatch(&mut registry, 42, PendingEvent::new(message(WM_NCDESTROY), None));
    assert_eq!(outcome, Dispatch { reply: HostReply::Handled(3), present: false });
    assert_eq!(registry.phase(42), HandlePhase::TornDown);
    assert!(registry.lookup(42).is_none());
}

#[test]
fn everything_after_teardown_falls_back() {
    let mut registry = WindowStateRegistry::new();
    registry.register(42, recorder(EventReply::Handled(3), 5)).unwrap();
    dispatch(&mut registry, 42, PendingEvent::new(message(WM_NCDESTROY), None));
    for code in [WM_NCDESTROY, WM_PAINT, 0x0005, WM_CREATE] {
        let event = PendingEvent::new(message(code), None);
        assert_eq!(dispatch(&mut registry, 42, event), DEFAULT);
        assert_eq!(registry.phase(42), HandlePhase::TornDown);
        assert!(registry.lookup(42).is_none());
    }
    // not even a creation that brings a state revives the handle
    let revive = PendingEvent::new(message(WM_CREATE), Some(recorder(EventReply::NotHandled, 9)));
    assert_eq!(dispatch(&mut registry, 42, revive), DEFAULT);
    assert_eq!(registry.phase(42), HandlePhase::TornDown);
}

#[test]
fn game_state_leaves_everything_to_the_host() {
    let mut handler = GameState;
    for kind in [EventKind::Create, EventKind::Paint, EventKind::DestroyPending, EventKind::Other] {
        assert_eq!(handler.on_event(1, kind, message(0)), EventReply::NotHandled);
    }
    let mut registry = WindowStateRegistry::new();
    let surface = GameOffScreenBuffer::new(2, 2, RowOrder::TopDown).unwrap();
    registry.register(5, WindowState::new(GameState, surface)).unwrap();
    assert_eq!(dispatch(&mut registry, 5, PendingEvent::new(message(0x0005), None)), DEFAULT);
    assert_eq!(
        dispatch(&mut registry, 5, PendingEvent::new(message(WM_PAINT), None)),
        Dispatch { reply: HostReply::DefaultProcessing, present: true }
    );
}

#[test]
fn paint_request_stretches_the_live_surface_over_the_client_area() {
    let mut registry = WindowStateRegistry::new();
    registry.register(42, recorder(EventReply::NotHandled, 5)).unwrap();
    let client = ClientRect { left: 0, top: 0, right: 640, bottom: 480 };
    let request = paint_request(&registry, 42, client).expect("a copy");
    assert_eq!(request.source, Rect { x: 0, y: 0, width: 5, height: 2 });
    assert_eq!(request.destination, Rect { x: 0, y: 0, width: 640, height: 480 });
    assert_eq!(request.bitmap_info.width, 5);
    assert_eq!(request.bitmap_info.height, -2);
}

#[test]
fn paint_request_is_none_without_state_or_pixels() {
    let mut registry = WindowStateRegistry::new();
    let client = ClientRect { left: 0, top: 0, right: 640, bottom: 480 };
    assert_eq!(paint_request(&registry, 42, client), None);
    registry.register(42, recorder(EventReply::NotHandled, 5)).unwrap();
    let flat = ClientRect { left: 0, top: 0, right: 640, bottom: 0 };
    assert_eq!(paint_request(&registry, 42, flat), None);
    let inverted = ClientRect { left: 10, top: 0, right: 5, bottom: 480 };
    assert_eq!(paint_request(&registry, 42, inverted), None);
    registry.unregister(42);
    assert_eq!(paint_request(&registry, 42, client), None);
}
