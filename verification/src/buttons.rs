//! The engine's record of the mouse buttons, as far as this library reads it.
//!
//! `bevy::input::ButtonInput` keeps a set of the buttons that are pressed
//! and a set of those that have just been pressed. Nothing of it is verified
//! here: the two functions of this module call it, and what they state of
//! the answers is believed.

use vstd::prelude::*;
use bevy::input::mouse::MouseButton;
use bevy::input::ButtonInput;
use std::hash::Hash;

verus! {

/// `bevy::input::ButtonInput`, carried through as an opaque value.
/// What it holds is known only through `pressed_buttons` and
/// `just_pressed_buttons`.
#[verifier::external_type_specification]
#[verifier::external_body]
#[verifier::reject_recursive_types(T)]
pub struct ExButtonInput<T: Copy + Eq + Hash + Send + Sync + 'static>(ButtonInput<T>);

/// `bevy::input::mouse::MouseButton`, with its variants.
#[verifier::external_type_specification]
pub struct ExMouseButton(MouseButton);

/// The buttons in `input`'s set of pressed buttons.
pub uninterp spec fn pressed_buttons(input: ButtonInput<MouseButton>) -> Set<MouseButton>;

/// The buttons in `input`'s set of just pressed buttons. The engine empties
/// this set at the start of each tick, before it registers the tick's
/// presses.
pub uninterp spec fn just_pressed_buttons(input: ButtonInput<MouseButton>) -> Set<MouseButton>;

/// Calls `ButtonInput::pressed`. Believed of it: the answer is whether
/// `button` is in the record's set of pressed buttons.
#[verifier::external_body]
pub(crate) fn is_pressed(input: &ButtonInput<MouseButton>, button: MouseButton) -> (down: bool)
    ensures
        down == pressed_buttons(*input).contains(button),
{
    input.pressed(button)
}

/// Calls `ButtonInput::just_pressed`. Believed of it: the answer is whether
/// `button` is in the record's set of just pressed buttons.
#[verifier::external_body]
pub(crate) fn is_just_pressed(input: &ButtonInput<MouseButton>, button: MouseButton) -> (down: bool)
    ensures
        down == just_pressed_buttons(*input).contains(button),
{
    input.just_pressed(button)
}

/// Whether `input` holds the primary button, the left one, as currently
/// pressed.
pub open spec fn primary_pressed(input: ButtonInput<MouseButton>) -> bool {
    pressed_buttons(input).contains(MouseButton::Left)
}

/// Whether `input` holds the primary button as just pressed, that is, as
/// gone down in this tick.
pub open spec fn primary_just_pressed(input: ButtonInput<MouseButton>) -> bool {
    just_pressed_buttons(input).contains(MouseButton::Left)
}

} // verus!
