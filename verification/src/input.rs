//! Key and pointer-button state as the input backend holds it.
//!
//! The keyboard and the pointer buttons come as `bevy`'s `ButtonInput`, a set
//! of the buttons that are down. Its enums of keys, buttons and scroll units
//! are declared with their variants, so the library matches on them and names
//! them in contracts. The set itself is opaque: what it holds is known only
//! through `pressed_keys` and `pressed_buttons`.

use bevy::input::keyboard::{KeyCode, NativeKeyCode};
use bevy::input::mouse::{MouseButton, MouseScrollUnit};
use bevy::input::ButtonInput;
use vstd::prelude::*;

verus! {

#[verifier::external_type_specification]
#[verifier::external_body]
#[verifier::reject_recursive_types(T)]
pub struct ExButtonInput<T: Copy + Eq + std::hash::Hash + Send + Sync + 'static>(ButtonInput<T>);

#[verifier::external_type_specification]
pub struct ExNativeKeyCode(NativeKeyCode);

#[verifier::external_type_specification]
pub struct ExKeyCode(KeyCode);

#[verifier::external_type_specification]
pub struct ExMouseButton(MouseButton);

#[verifier::external_type_specification]
pub struct ExMouseScrollUnit(MouseScrollUnit);

/// The keys that `input` holds as pressed.
pub uninterp spec fn pressed_keys(input: ButtonInput<KeyCode>) -> Set<KeyCode>;

/// The pointer buttons that `input` holds as pressed.
pub uninterp spec fn pressed_buttons(input: ButtonInput<MouseButton>) -> Set<MouseButton>;

/// `ButtonInput::pressed` on the keyboard state. It looks `key` up in the set
/// of pressed keys and changes nothing: the result is whether `key` is in that
/// set.
#[verifier::external_body]
pub(crate) fn key_pressed(input: &ButtonInput<KeyCode>, key: KeyCode) -> (held: bool)
    ensures
        held == pressed_keys(*input).contains(key),
{
    input.pressed(key)
}

/// `ButtonInput::pressed` on the pointer-button state. It looks `button` up in
/// the set of pressed buttons and changes nothing: the result is whether
/// `button` is in that set.
#[verifier::external_body]
pub(crate) fn button_pressed(input: &ButtonInput<MouseButton>, button: MouseButton) -> (held: bool)
    ensures
        held == pressed_buttons(*input).contains(button),
{
    input.pressed(button)
}

} // verus!
