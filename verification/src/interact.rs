//! What the pointer is doing to one tile: hovering it, holding it, or neither.

use vstd::prelude::*;
use crate::timer::FlagTimer;

verus! {

/// The pointer's relation to one tile, as two flag timers.
#[derive(Debug, Clone, Copy, PartialEq, Eq)]
pub struct MouseInteractState {
    /// On while the pointer is over the tile.
    pub hovered: FlagTimer,
    /// On while the pointer is over the tile with the button down.
    pub held: FlagTimer,
}

impl MouseInteractState {
    /// Both timers are well formed, and a tile is held only while it is
    /// hovered, so the held timer never runs ahead of the hovered one.
    pub open spec fn wf(self) -> bool {
        &&& self.hovered.wf()
        &&& self.held.wf()
        &&& self.held.on ==> self.hovered.on
        &&& self.held.time_on <= self.hovered.time_on
        &&& self.held.ticks_on <= self.hovered.ticks_on
    }

    /// No interaction: both flags off.
    pub open spec fn idle() -> MouseInteractState {
        MouseInteractState { hovered: FlagTimer::idle(), held: FlagTimer::idle() }
    }

    /// Whether one more tick of `elapsed` nanoseconds over the tile, with the
    /// button down or up as `pressed` says, fits in the counters.
    pub open spec fn has_room(self, elapsed: u64, pressed: bool) -> bool {
        &&& self.hovered.has_room(elapsed)
        &&& pressed ==> self.held.has_room(elapsed)
    }

    /// The state after a tick during which the pointer was over the tile.
    pub open spec fn interacted(self, elapsed: u64, pressed: bool) -> MouseInteractState
        recommends
            self.has_room(elapsed, pressed),
    {
        MouseInteractState {
            hovered: self.hovered.turned_on(elapsed),
            held: if pressed {
                self.held.turned_on(elapsed)
            } else {
                self.held.turned_off()
            },
        }
    }

    /// The state after a tick during which the pointer was elsewhere.
    pub open spec fn ended(self) -> MouseInteractState {
        MouseInteractState { hovered: self.hovered.turned_off(), held: self.held.turned_off() }
    }

    /// A state with both flags off.
    pub fn new() -> (state: Self)
        ensures
            state == MouseInteractState::idle(),
            state.wf(),
    {
        MouseInteractState { hovered: FlagTimer::new(), held: FlagTimer::new() }
    }

    /// Tells whether `interact(elapsed, pressed)` may be called.
    pub fn can_interact(&self, elapsed: u64, pressed: bool) -> (fits: bool)
        ensures
            fits == self.has_room(elapsed, pressed),
    {
        self.hovered.can_turn_on(elapsed) && (!pressed || self.held.can_turn_on(elapsed))
    }

    /// Records a tick of `elapsed` nanoseconds during which the pointer was
    /// over the tile: the hover flag is turned on, and the held flag is turned
    /// on if the button is down and off if it is not.
    /// Returns both previous flag values: hovered first, held second.
    pub fn interact(&mut self, elapsed: u64, pressed: bool) -> (last: (bool, bool))
        requires
            old(self).has_room(elapsed, pressed),
        ensures
            last == (old(self).hovered.on, old(self).held.on),
            *final(self) == old(self).interacted(elapsed, pressed),
            old(self).wf() ==> final(self).wf(),
    {
        let last_hovered = self.hovered.on(elapsed);
        let last_held = if pressed {
            self.held.on(elapsed)
        } else {
            self.held.off()
        };
        (last_hovered, last_held)
    }

    /// Turns off both the hover and held flags.
    /// Returns both previous flag values: hovered first, held second.
    pub fn end_interaction(&mut self) -> (last: (bool, bool))
        ensures
            last == (old(self).hovered.on, old(self).held.on),
            *final(self) == old(self).ended(),
            *final(self) == MouseInteractState::idle(),
            final(self).wf(),
    {
        (self.hovered.off(), self.held.off())
    }
}

impl Default for MouseInteractState {
    fn default() -> (state: Self)
        ensures
            state == MouseInteractState::idle(),
    {
        MouseInteractState::new()
    }
}

/// The interaction state that a tile carries.
#[derive(Debug, Clone, Copy, PartialEq, Eq)]
pub struct InteractState {
    pub mouse: MouseInteractState,
}

impl InteractState {
    /// The state of a tile that nothing interacts with.
    pub open spec fn idle() -> InteractState {
        InteractState { mouse: MouseInteractState::idle() }
    }

    pub fn new() -> (state: Self)
        ensures
            state == InteractState::idle(),
    {
        InteractState { mouse: MouseInteractState::new() }
    }
}

impl Default for InteractState {
    fn default() -> (state: Self)
        ensures
            state == InteractState::idle(),
    {
        InteractState::new()
    }
}

/// Ending an interaction that has already ended changes nothing.
pub proof fn lemma_end_is_idempotent(state: MouseInteractState)
    ensures
        state.wf() && !state.hovered.on ==> state.ended() == state,
        state.ended().ended() == state.ended(),
{
}

/// Every tick keeps the state well formed: in particular, a tile is never
/// held without being hovered.
pub proof fn lemma_ticks_keep_wf(state: MouseInteractState, elapsed: u64, pressed: bool)
    ensures
        state.ended().wf(),
        state.wf() && state.has_room(elapsed, pressed) ==> state.interacted(elapsed, pressed).wf(),
        MouseInteractState::idle().wf(),
{
}

/// In a well-formed state the held timer has room whenever the hovered one
/// has.
pub proof fn lemma_hovered_room_suffices(state: MouseInteractState, elapsed: u64, pressed: bool)
    requires
        state.wf(),
        state.hovered.has_room(elapsed),
    ensures
        state.has_room(elapsed, pressed),
{
}

} // verus!
