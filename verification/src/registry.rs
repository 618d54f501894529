//! The registry that ties each native window handle to the one state object
//! it owns, from the window's creation to its destruction.

use crate::surface::{GameOffScreenBuffer, SurfaceView};
use vstd::prelude::*;

verus! {

/// Why a handle could not be registered, or a registration not be used.
#[derive(Clone, Copy, Debug, PartialEq, Eq, Structural)]
pub enum RegistrationError {
    /// The handle already has a live registration.
    DuplicateHandle,
    /// The handle has no registration to offer: it was torn down for good,
    /// or it was never registered.
    MissingHandle,
}

/// Where a handle stands in its life. A handle only ever moves forward:
/// from `Unregistered` to `Registered` to `TornDown`.
#[derive(Clone, Copy, Debug, PartialEq, Eq, Structural)]
pub enum HandlePhase {
    Unregistered,
    Registered,
    TornDown,
}

/// A reference to a window that owns nothing. It names the window's native
/// handle, if any, and has to be resolved through the registry each time the
/// state is wanted.
#[derive(Clone, Copy, Debug)]
pub struct WindowHandle {
    target: Option<usize>,
}

impl View for WindowHandle {
    type V = Option<usize>;

    closed spec fn view(&self) -> Option<usize> {
        self.target
    }
}

impl Default for WindowHandle {
    /// A handle that refers to no window.
    fn default() -> (handle: Self)
        ensures
            handle@ is None,
    {
        WindowHandle { target: None }
    }
}

impl WindowHandle {
    /// The native handle this reference names, if it names one.
    pub fn hwnd(&self) -> (target: Option<usize>)
        ensures
            target == self@,
    {
        self.target
    }
}

/// Everything a window owns: its handler and its surface. The native handle
/// is unknown until the state is registered, and is then fixed.
pub struct WindowState<H> {
    native_handle: Option<usize>,
    handler: H,
    surface: GameOffScreenBuffer,
}

/// Mathematical model of a window's state.
pub struct WindowStateView<H> {
    pub native_handle: Option<usize>,
    pub handler: H,
    pub surface: SurfaceView,
}

impl<H> View for WindowState<H> {
    type V = WindowStateView<H>;

    closed spec fn view(&self) -> WindowStateView<H> {
        WindowStateView {
            native_handle: self.native_handle,
            handler: self.handler,
            surface: self.surface@,
        }
    }
}

impl<H> WindowState<H> {
    /// The state of a window that the host has not created yet.
    pub fn new(handler: H, surface: GameOffScreenBuffer) -> (state: Self)
        ensures
            state@ == (WindowStateView { native_handle: None, handler, surface: surface@ }),
            state@.surface.wf(),
    {
        proof {
            use_type_invariant(&surface);
        }
        WindowState { native_handle: None, handler, surface }
    }

    /// The native handle, once the state is registered.
    pub fn native_handle(&self) -> (hwnd: Option<usize>)
        ensures
            hwnd == self@.native_handle,
    {
        self.native_handle
    }

    /// The window's handler.
    pub fn handler(&self) -> (handler: &H)
        ensures
            *handler == self@.handler,
    {
        &self.handler
    }

    /// The window's surface.
    pub fn surface(&self) -> (surface: &GameOffScreenBuffer)
        ensures
            surface@ == self@.surface,
            surface.wf(),
    {
        proof {
            use_type_invariant(&self.surface);
        }
        &self.surface
    }

    /// The window's handler, to act on.
    pub fn handler_mut(&mut self) -> (handler: &mut H)
        ensures
            *handler == old(self)@.handler,
            final(self)@ == (WindowStateView { handler: *final(handler), ..old(self)@ }),
    {
        &mut self.handler
    }

    /// The window's surface, to draw on.
    pub fn surface_mut(&mut self) -> (surface: &mut GameOffScreenBuffer)
        ensures
            surface@ == old(self)@.surface,
            final(self)@ == (WindowStateView { surface: final(surface)@, ..old(self)@ }),
    {
        &mut self.surface
    }
}

/// Mathematical model of the registry. A handle outside the domain was
/// never registered; one that maps to a state is registered; one that maps
/// to nothing was torn down.
pub type RegistryView<H> = Map<usize, Option<WindowStateView<H>>>;

/// The phase of `hwnd` in `m`.
pub open spec fn phase_of<H>(m: RegistryView<H>, hwnd: usize) -> HandlePhase {
    if !m.dom().contains(hwnd) {
        HandlePhase::Unregistered
    } else if m[hwnd] is Some {
        HandlePhase::Registered
    } else {
        HandlePhase::TornDown
    }
}

/// The state that `hwnd` owns in `m`, if it is registered.
pub open spec fn live_state<H>(m: RegistryView<H>, hwnd: usize) -> Option<WindowStateView<H>> {
    if m.dom().contains(hwnd) {
        m[hwnd]
    } else {
        None
    }
}

/// `state` once it belongs to the window `hwnd`.
pub open spec fn attach<H>(state: WindowStateView<H>, hwnd: usize) -> WindowStateView<H> {
    WindowStateView { native_handle: Some(hwnd), ..state }
}

/// The error that registering `hwnd` in `m` meets, or nothing where the
/// registration goes through.
pub open spec fn register_error<H>(m: RegistryView<H>, hwnd: usize) -> Option<RegistrationError> {
    match phase_of(m, hwnd) {
        HandlePhase::Unregistered => None,
        HandlePhase::Registered => Some(RegistrationError::DuplicateHandle),
        HandlePhase::TornDown => Some(RegistrationError::MissingHandle),
    }
}

/// `m` after an attempt to register `state` under `hwnd`: only a handle
/// that was never registered takes the state.
pub open spec fn after_register<H>(
    m: RegistryView<H>,
    hwnd: usize,
    state: WindowStateView<H>,
) -> RegistryView<H> {
    if phase_of(m, hwnd) is Unregistered {
        m.insert(hwnd, Some(attach(state, hwnd)))
    } else {
        m
    }
}

/// `m` after `hwnd` is unregistered: a registered handle is torn down, any
/// other stays as it is.
pub open spec fn after_unregister<H>(m: RegistryView<H>, hwnd: usize) -> RegistryView<H> {
    if phase_of(m, hwnd) is Registered {
        m.insert(hwnd, None)
    } else {
        m
    }
}

/// Every registered state knows the handle it is registered under, and its
/// surface is well formed.
pub open spec fn consistent<H>(m: RegistryView<H>) -> bool {
    forall|hwnd: usize|
        m.dom().contains(hwnd) ==> (#[trigger] m[hwnd] matches Some(state) ==> state.native_handle
            == Some(hwnd) && state.surface.wf())
}

/// One handle the registry has seen, with the state it owns while it lives.
struct Slot<H> {
    hwnd: usize,
    state: Option<WindowState<H>>,
}

/// The model of a state that may be absent.
pub open spec fn state_view<H>(state: Option<WindowState<H>>) -> Option<WindowStateView<H>> {
    match state {
        Some(s) => Some(s@),
        None => None,
    }
}

spec fn known<H>(slots: Seq<Slot<H>>, hwnd: usize) -> bool {
    exists|i: int| 0 <= i < slots.len() && (#[trigger] slots[i]).hwnd == hwnd
}

spec fn slot_index<H>(slots: Seq<Slot<H>>, hwnd: usize) -> int {
    choose|i: int| 0 <= i < slots.len() && (#[trigger] slots[i]).hwnd == hwnd
}

spec fn slots_view<H>(slots: Seq<Slot<H>>) -> RegistryView<H> {
    Map::new(
        |hwnd: usize| known(slots, hwnd),
        |hwnd: usize| state_view(slots[slot_index(slots, hwnd)].state),
    )
}

/// Whether `state` may sit in the slot of `hwnd`.
spec fn fits_slot<H>(state: Option<WindowState<H>>, hwnd: usize) -> bool {
    state matches Some(s) ==> s@.native_handle == Some(hwnd) && s@.surface.wf()
}

/// No handle has two slots, and every state that is held knows its handle
/// and has a well-formed surface.
spec fn slots_ok<H>(slots: Seq<Slot<H>>) -> bool {
    &&& forall|i: int, j: int|
        0 <= i < j < slots.len() ==> (#[trigger] slots[i]).hwnd != (#[trigger] slots[j]).hwnd
    &&& forall|i: int| 0 <= i < slots.len() ==> fits_slot((#[trigger] slots[i]).state, slots[i].hwnd)
}

proof fn lemma_slot_at<H>(slots: Seq<Slot<H>>, i: int)
    requires
        slots_ok(slots),
        0 <= i < slots.len(),
    ensures
        known(slots, slots[i].hwnd),
        slot_index(slots, slots[i].hwnd) == i,
        slots_view(slots).dom().contains(slots[i].hwnd),
        slots_view(slots)[slots[i].hwnd] == state_view(slots[i].state),
{
    let hwnd = slots[i].hwnd;
    assert(known(slots, hwnd));
    let j = slot_index(slots, hwnd);
    assert(0 <= j < slots.len() && slots[j].hwnd == hwnd);
    if i < j {
        assert(slots[i].hwnd != slots[j].hwnd);
    }
    if j < i {
        assert(slots[j].hwnd != slots[i].hwnd);
    }
}

proof fn lemma_slots_consistent<H>(slots: Seq<Slot<H>>)
    requires
        slots_ok(slots),
    ensures
        consistent(slots_view(slots)),
{
    let m = slots_view(slots);
    assert forall|hwnd: usize| m.dom().contains(hwnd) implies (#[trigger] m[hwnd] matches Some(
        state,
    ) ==> state.native_handle == Some(hwnd) && state.surface.wf()) by {
        let i = slot_index(slots, hwnd);
        assert(0 <= i < slots.len() && slots[i].hwnd == hwnd);
        lemma_slot_at(slots, i);
    }
}

proof fn lemma_slots_push<H>(slots: Seq<Slot<H>>, slot: Slot<H>)
    requires
        slots_ok(slots),
        !known(slots, slot.hwnd),
        fits_slot(slot.state, slot.hwnd),
    ensures
        slots_ok(slots.push(slot)),
        slots_view(slots.push(slot)) == slots_view(slots).insert(slot.hwnd, state_view(slot.state)),
{
    let grown = slots.push(slot);
    assert forall|i: int, j: int| 0 <= i < j < grown.len() implies (#[trigger] grown[i]).hwnd != (
    #[trigger] grown[j]).hwnd by {
        if j == slots.len() {
            assert(slots[i].hwnd != slot.hwnd);
        } else {
            assert(slots[i].hwnd != slots[j].hwnd);
        }
    }
    assert forall|i: int| 0 <= i < grown.len() implies fits_slot(
        (#[trigger] grown[i]).state,
        grown[i].hwnd,
    ) by {
        if i < slots.len() {
            assert(grown[i] == slots[i]);
        }
    }
    let a = slots_view(grown);
    let b = slots_view(slots).insert(slot.hwnd, state_view(slot.state));
    assert forall|hwnd: usize| a.dom().contains(hwnd) <==> b.dom().contains(hwnd) by {
        if known(grown, hwnd) {
            let i = slot_index(grown, hwnd);
            if i < slots.len() {
                assert(slots[i].hwnd == hwnd);
            }
        }
        if known(slots, hwnd) {
            let i = slot_index(slots, hwnd);
            assert(grown[i].hwnd == hwnd);
        }
        if hwnd == slot.hwnd {
            assert(grown[slots.len() as int].hwnd == hwnd);
        }
    }
    assert forall|hwnd: usize| a.dom().contains(hwnd) implies a[hwnd] == b[hwnd] by {
        let i = slot_index(grown, hwnd);
        lemma_slot_at(grown, i);
        if i < slots.len() {
            assert(grown[i] == slots[i]);
            lemma_slot_at(slots, i);
        }
    }
    assert(a =~= b);
}

/// `slots` with the state of slot `i` replaced.
spec fn with_state<H>(slots: Seq<Slot<H>>, i: int, state: Option<WindowState<H>>) -> Seq<Slot<H>> {
    slots.update(i, Slot { hwnd: slots[i].hwnd, state })
}

proof fn lemma_slots_update<H>(slots: Seq<Slot<H>>, i: int, state: Option<WindowState<H>>)
    requires
        slots_ok(slots),
        0 <= i < slots.len(),
        fits_slot(state, slots[i].hwnd),
    ensures
        slots_ok(with_state(slots, i, state)),
        slots_view(with_state(slots, i, state)) == slots_view(slots).insert(
            slots[i].hwnd,
            state_view(state),
        ),
{
    let changed = with_state(slots, i, state);
    assert forall|p: int, q: int| 0 <= p < q < changed.len() implies (#[trigger] changed[p]).hwnd
        != (#[trigger] changed[q]).hwnd by {
        assert(changed[p].hwnd == slots[p].hwnd);
        assert(changed[q].hwnd == slots[q].hwnd);
    }
    assert forall|p: int| 0 <= p < changed.len() implies fits_slot(
        (#[trigger] changed[p]).state,
        changed[p].hwnd,
    ) by {
        if p != i {
            assert(changed[p] == slots[p]);
        }
    }
    let a = slots_view(changed);
    let b = slots_view(slots).insert(slots[i].hwnd, state_view(state));
    assert forall|hwnd: usize| a.dom().contains(hwnd) <==> b.dom().contains(hwnd) by {
        if known(changed, hwnd) {
            let p = slot_index(changed, hwnd);
            assert(slots[p].hwnd == hwnd);
        }
        if known(slots, hwnd) {
            let p = slot_index(slots, hwnd);
            assert(changed[p].hwnd == hwnd);
        }
        if hwnd == slots[i].hwnd {
            assert(changed[i].hwnd == hwnd);
        }
    }
    assert forall|hwnd: usize| a.dom().contains(hwnd) implies a[hwnd] == b[hwnd] by {
        let p = slot_index(changed, hwnd);
        lemma_slot_at(changed, p);
        if p != i {
            assert(changed[p] == slots[p]);
            lemma_slot_at(slots, p);
            lemma_slot_at(slots, i);
        }
    }
    assert(a =~= b);
}

/// The one place that owns window state. Each native handle has at most one
/// state, held from registration until the handle is unregistered; whoever
/// else needs the state looks it up anew each time.
pub struct WindowStateRegistry<H> {
    slots: Vec<Slot<H>>,
}

impl<H> View for WindowStateRegistry<H> {
    type V = RegistryView<H>;

    closed spec fn view(&self) -> RegistryView<H> {
        slots_view(self.slots@)
    }
}

impl<H> WindowStateRegistry<H> {
    /// What the registry keeps true of its own storage: no handle is held
    /// twice, and every state that is held is consistent.
    #[verifier::type_invariant]
    pub closed spec fn inv(&self) -> bool {
        slots_ok(self.slots@)
    }

    /// The registry's own invariant makes it well formed.
    pub proof fn lemma_inv_implies_wf(&self)
        requires
            self.inv(),
        ensures
            self.wf(),
    {
        lemma_slots_consistent(self.slots@);
    }

    /// What holds of every registry: each registered state knows its handle
    /// and has a well-formed surface.
    pub open spec fn wf(&self) -> bool {
        consistent(self@)
    }

    /// A registry that has seen no handle.
    pub fn new() -> (registry: Self)
        ensures
            registry@ == Map::<usize, Option<WindowStateView<H>>>::empty(),
            registry.wf(),
    {
        let registry = WindowStateRegistry { slots: Vec::new() };
        assert(registry@ =~= Map::<usize, Option<WindowStateView<H>>>::empty());
        registry
    }

    /// The slot of `hwnd`, if the registry has seen the handle.
    fn find(&self, hwnd: usize) -> (found: Option<usize>)
        ensures
            slots_ok(self.slots@),
            self.wf(),
            match found {
                Some(i) => i < self.slots@.len() && self.slots@[i as int].hwnd == hwnd,
                None => !known(self.slots@, hwnd),
            },
    {
        proof {
            use_type_invariant(self);
            lemma_slots_consistent(self.slots@);
        }
        let mut i: usize = 0;
        while i < self.slots.len()
            invariant
                slots_ok(self.slots@),
                self.wf(),
                i <= self.slots@.len(),
                forall|j: int| 0 <= j < i ==> (#[trigger] self.slots@[j]).hwnd != hwnd,
            decreases self.slots@.len() - i,
        {
            if self.slots[i].hwnd == hwnd {
                return Some(i);
            }
            i += 1;
        }
        None
    }

    /// The phase of `hwnd`.
    pub fn phase(&self, hwnd: usize) -> (phase: HandlePhase)
        ensures
            phase == phase_of(self@, hwnd),
            self.wf(),
    {
        match self.find(hwnd) {
            Some(i) => {
                proof {
                    lemma_slot_at(self.slots@, i as int);
                }
                if self.slots[i].state.is_some() {
                    HandlePhase::Registered
                } else {
                    HandlePhase::TornDown
                }
            },
            None => HandlePhase::Unregistered,
        }
    }

    /// Gives `state` to the window `hwnd`. A handle is registered once in its
    /// life: a second registration fails with `DuplicateHandle` while the
    /// first is live and with `MissingHandle` after it was torn down, and
    /// either way the registry stays as it was.
    pub fn register(&mut self, hwnd: usize, state: WindowState<H>) -> (token: Result<
        WindowHandle,
        RegistrationError,
    >)
        ensures
            final(self)@ == after_register(old(self)@, hwnd, state@),
            token is Ok <==> register_error(old(self)@, hwnd) is None,
            token matches Ok(handle) ==> handle@ == Some(hwnd),
            token matches Err(error) ==> register_error(old(self)@, hwnd) == Some(error),
            final(self).wf(),
    {
        match self.find(hwnd) {
            Some(i) => {
                proof {
                    lemma_slot_at(self.slots@, i as int);
                }
                if self.slots[i].state.is_some() {
                    Err(RegistrationError::DuplicateHandle)
                } else {
                    Err(RegistrationError::MissingHandle)
                }
            },
            None => {
                let mut state = state;
                proof {
                    use_type_invariant(&state.surface);
                }
                state.native_handle = Some(hwnd);
                let slot = Slot { hwnd, state: Some(state) };
                proof {
                    lemma_slots_push(self.slots@, slot);
                    lemma_slots_consistent(self.slots@.push(slot));
                }
                let mut slots: Vec<Slot<H>> = Vec::new();
                core::mem::swap(&mut self.slots, &mut slots);
                slots.push(slot);
                self.slots = slots;
                Ok(WindowHandle { target: Some(hwnd) })
            },
        }
    }

    /// A reference to the window `hwnd`, or nothing when the handle has no
    /// live registration.
    pub fn lookup(&self, hwnd: usize) -> (found: Option<WindowHandle>)
        ensures
            match found {
                Some(handle) => phase_of(self@, hwnd) is Registered && handle@ == Some(hwnd),
                None => !(phase_of(self@, hwnd) is Registered),
            },
            self.wf(),
    {
        match self.phase(hwnd) {
            HandlePhase::Registered => Some(WindowHandle { target: Some(hwnd) }),
            _ => None,
        }
    }

    /// The state that `handle` refers to, as long as its window is
    /// registered.
    pub fn resolve(&self, handle: &WindowHandle) -> (found: Option<&WindowState<H>>)
        ensures
            found is Some <==> (handle@ matches Some(hwnd) && phase_of(self@, hwnd) is Registered),
            found matches Some(state) ==> Some(state@) == live_state(self@, handle@->0)
                && state@.native_handle == handle@ && state@.surface.wf(),
            self.wf(),
    {
        proof {
            use_type_invariant(self);
            lemma_slots_consistent(self.slots@);
        }
        match handle.target {
            Some(hwnd) => match self.find(hwnd) {
                Some(i) => {
                    proof {
                        lemma_slot_at(self.slots@, i as int);
                    }
                    self.slots[i].state.as_ref()
                },
                None => None,
            },
            None => None,
        }
    }

    /// Ends the registration of `hwnd` and drops the state it owned. A handle
    /// that is not registered is left alone, so a repeated call does
    /// nothing.
    pub fn unregister(&mut self, hwnd: usize)
        ensures
            final(self)@ == after_unregister(old(self)@, hwnd),
            final(self).wf(),
    {
        let _ = self.checkout(hwnd);
    }

    /// Takes the state of `hwnd` out of the registry. Until it is put back
    /// the handle counts as torn down.
    pub(crate) fn checkout(&mut self, hwnd: usize) -> (taken: Option<WindowState<H>>)
        ensures
            state_view(taken) == live_state(old(self)@, hwnd),
            final(self)@ == after_unregister(old(self)@, hwnd),
            taken matches Some(state) ==> state@.native_handle == Some(hwnd)
                && state@.surface.wf(),
            final(self).wf(),
    {
        match self.find(hwnd) {
            Some(i) => {
                proof {
                    lemma_slot_at(self.slots@, i as int);
                    lemma_slots_update(self.slots@, i as int, None);
                    lemma_slots_consistent(with_state(self.slots@, i as int, None));
                }
                let mut slots: Vec<Slot<H>> = Vec::new();
                core::mem::swap(&mut self.slots, &mut slots);
                let taken = slots[i].state.take();
                assert(slots@ =~= with_state(old(self).slots@, i as int, None));
                self.slots = slots;
                assert(self@ =~= after_unregister(old(self)@, hwnd));
                taken
            },
            None => None,
        }
    }

    /// Puts back a state that was taken out with `checkout`.
    pub(crate) fn checkin(&mut self, hwnd: usize, state: WindowState<H>)
        requires
            phase_of(old(self)@, hwnd) is TornDown,
            state@.native_handle == Some(hwnd),
        ensures
            final(self)@ == old(self)@.insert(hwnd, Some(state@)),
            final(self).wf(),
    {
        proof {
            use_type_invariant(&state.surface);
        }
        match self.find(hwnd) {
            Some(i) => {
                proof {
                    lemma_slot_at(self.slots@, i as int);
                    lemma_slots_update(self.slots@, i as int, Some(state));
                    lemma_slots_consistent(with_state(self.slots@, i as int, Some(state)));
                }
                let mut slots: Vec<Slot<H>> = Vec::new();
                core::mem::swap(&mut self.slots, &mut slots);
                slots[i].state = Some(state);
                assert(slots@ =~= with_state(old(self).slots@, i as int, Some(state)));
                self.slots = slots;
            },
            None => {
                assert(false);
            },
        }
    }
}

/// How far along its life a handle is.
pub open spec fn phase_rank(phase: HandlePhase) -> int {
    match phase {
        HandlePhase::Unregistered => 0,
        HandlePhase::Registered => 1,
        HandlePhase::TornDown => 2,
    }
}

/// A handle that is registered and then unregistered has nothing left to
/// look up, whatever the registry held before; and unregistering once more
/// changes nothing.
pub proof fn lemma_teardown_is_idempotent<H>(
    m: RegistryView<H>,
    hwnd: usize,
    state: WindowStateView<H>,
)
    ensures
        live_state(after_unregister(after_register(m, hwnd, state), hwnd), hwnd) is None,
        !(phase_of(after_unregister(after_register(m, hwnd, state), hwnd), hwnd) is Registered),
        after_unregister(after_unregister(m, hwnd), hwnd) == after_unregister(m, hwnd),
{
    assert(after_unregister(after_unregister(m, hwnd), hwnd) =~= after_unregister(m, hwnd));
}

/// While a handle is registered, registering it again is refused with
/// `DuplicateHandle` and the registry keeps the state it had.
pub proof fn lemma_duplicate_is_refused<H>(
    m: RegistryView<H>,
    hwnd: usize,
    second: WindowStateView<H>,
)
    requires
        phase_of(m, hwnd) is Registered,
    ensures
        register_error(m, hwnd) == Some(RegistrationError::DuplicateHandle),
        after_register(m, hwnd, second) == m,
        live_state(after_register(m, hwnd, second), hwnd) == live_state(m, hwnd),
{
}

/// A first registration goes through and holds the state it was given, now
/// tied to the handle.
pub proof fn lemma_first_registration_holds<H>(
    m: RegistryView<H>,
    hwnd: usize,
    first: WindowStateView<H>,
)
    requires
        phase_of(m, hwnd) is Unregistered,
    ensures
        register_error(m, hwnd) is None,
        phase_of(after_register(m, hwnd, first), hwnd) is Registered,
        live_state(after_register(m, hwnd, first), hwnd) == Some(attach(first, hwnd)),
        consistent(m) && first.surface.wf() ==> consistent(after_register(m, hwnd, first)),
{
}

/// Registering or unregistering one handle never moves another handle, and
/// never moves any handle backwards: what was torn down stays torn down.
pub proof fn lemma_phases_only_advance<H>(
    m: RegistryView<H>,
    acted_on: usize,
    state: WindowStateView<H>,
    hwnd: usize,
)
    ensures
        phase_rank(phase_of(m, hwnd)) <= phase_rank(phase_of(after_register(m, acted_on, state), hwnd)),
        phase_rank(phase_of(m, hwnd)) <= phase_rank(phase_of(after_unregister(m, acted_on), hwnd)),
        hwnd != acted_on ==> live_state(after_register(m, acted_on, state), hwnd) == live_state(
            m,
            hwnd,
        ) && phase_of(after_register(m, acted_on, state), hwnd) == phase_of(m, hwnd),
        hwnd != acted_on ==> live_state(after_unregister(m, acted_on), hwnd) == live_state(m, hwnd)
            && phase_of(after_unregister(m, acted_on), hwnd) == phase_of(m, hwnd),
{
}

} // verus!
