use tile_input::interact::{InteractState, MouseInteractState};
use tile_input::timer::FlagTimer;

const TICK: u64 = 16_000_000;

const OFF: FlagTimer = FlagTimer { on: false, time_on: 0, ticks_on: 0 };

#[test]
fn a_new_state_has_both_flags_off() {
    let state = MouseInteractState::new();
    assert_eq!(state, MouseInteractState { hovered: OFF, held: OFF });
    assert_eq!(MouseInteractState::default(), state);
    assert_eq!(InteractState::default(), InteractState { mouse: state });
    assert_eq!(InteractState::new(), InteractState { mouse: state });
}

#[test]
fn interact_with_the_button_up_hovers() {
    let mut state = MouseInteractState::new();
    assert_eq!(state.interact(TICK, false), (false, false));
    assert_eq!(state.interact(TICK, false), (true, false));
    assert_eq!(
        state,
        MouseInteractState {
            hovered: FlagTimer { on: true, time_on: 2 * TICK, ticks_on: 2 },
            held: OFF,
        }
    );
}

#[test]
fn interact_with_the_button_down_holds() {
    let mut state = MouseInteractState::new();
    assert_eq!(state.interact(TICK, false), (false, false));
    assert_eq!(state.interact(TICK, true), (true, false));
    assert_eq!(state.interact(TICK, true), (true, true));
    assert_eq!(
        state,
        MouseInteractState {
            hovered: FlagTimer { on: true, time_on: 3 * TICK, ticks_on: 3 },
            held: FlagTimer { on: true, time_on: 2 * TICK, ticks_on: 2 },
        }
    );
    assert_eq!(state.interact(TICK, false), (true, true));
    assert_eq!(
        state,
        MouseInteractState {
            hovered: FlagTimer { on: true, time_on: 4 * TICK, ticks_on: 4 },
            held: OFF,
        }
    );
}

#[test]
fn end_interaction_turns_both_flags_off() {
    let mut state = MouseInteractState::new();
    state.interact(TICK, true);
    assert_eq!(state.end_interaction(), (true, true));
    assert_eq!(state, MouseInteractState { hovered: OFF, held: OFF });

    state.interact(TICK, false);
    assert_eq!(state.end_interaction(), (true, false));
    assert_eq!(state, MouseInteractState { hovered: OFF, held: OFF });
}

#[test]
fn end_interaction_on_an_idle_state_changes_nothing() {
    let mut state = MouseInteractState::new();
    assert_eq!(state.end_interaction(), (false, false));
    assert_eq!(state, MouseInteractState::new());
}

#[test]
fn can_interact_looks_at_the_held_timer_only_with_the_button_down() {
    let state = MouseInteractState {
        hovered: FlagTimer { on: true, time_on: 10, ticks_on: 1 },
        held: FlagTimer { on: true, time_on: 10, ticks_on: u32::MAX },
    };
    assert!(state.can_interact(TICK, false));
    assert!(!state.can_interact(TICK, true));

    let state = MouseInteractState {
        hovered: FlagTimer { on: true, time_on: u64::MAX, ticks_on: 1 },
        held: OFF,
    };
    assert!(state.can_interact(0, true));
    assert!(!state.can_interact(1, false));
}
