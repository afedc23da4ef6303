//! The keyboard, as the engine reports it once per frame.

use bevy::input::keyboard::KeyCode;
use bevy::input::Input;
use std::hash::Hash;
use vstd::prelude::*;

verus! {

/// `bevy::input::keyboard::KeyCode`, the engine's name for a key.
#[verifier::external_type_specification]
#[verifier::external_body]
pub struct ExKeyCode(KeyCode);

/// `bevy::input::Input`, the engine's record of which inputs are down, which
/// went down since the last frame and which were let go since then.
#[verifier::external_type_specification]
#[verifier::external_body]
#[verifier::reject_recursive_types(T)]
pub struct ExInput<T: Eq + Hash>(Input<T>);

/// Whether `keys` holds the space bar among the keys that went down since
/// the last frame. A key that is merely held is not among them.
pub uninterp spec fn space_just_pressed(keys: Input<KeyCode>) -> bool;

/// Calls `Input::just_pressed` for `KeyCode::Space`. The engine answers from
/// the set of just-pressed keys that `keys` holds and changes nothing, so the
/// answer depends on `keys` alone; that is all the contract claims.
#[verifier::external_body]
pub(crate) fn read_space_just_pressed(keys: &Input<KeyCode>) -> (fresh: bool)
    ensures
        fresh == space_just_pressed(*keys),
{
    keys.just_pressed(KeyCode::Space)
}

} // verus!
