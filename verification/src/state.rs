//! The locomotion state and the per-tick classifier that derives it from the
//! currently held keys.

use vstd::prelude::*;

verus! {

/// The keys the host read as held on one simulation tick: the four movement
/// keys (conventionally W, A, S and D) and the crouch modifier
/// (conventionally left Control).
#[derive(Clone, Copy, Debug, PartialEq, Eq, Structural)]
pub struct InputSnapshot {
    pub forward: bool,
    pub left: bool,
    pub back: bool,
    pub right: bool,
    pub crouch: bool,
}

/// The locomotion register: exactly one variant is active at any time.
#[derive(Clone, Copy, Debug, PartialEq, Eq, Structural)]
pub enum WalkingState {
    NotWalking,
    Walking,
    CrouchedWalking,
}

impl Default for WalkingState {
    /// The machine starts out not walking.
    fn default() -> (s: Self)
        ensures
            s == WalkingState::NotWalking,
    {
        WalkingState::NotWalking
    }
}

/// Whether any movement key is held in the snapshot.
pub open spec fn spec_any_movement(i: InputSnapshot) -> bool {
    i.forward || i.left || i.back || i.right
}

/// The state one input sample classifies to: movement together with the
/// crouch modifier selects `CrouchedWalking`, movement alone `Walking`, and
/// no movement `NotWalking` whatever the modifier says.
pub open spec fn spec_next_state(i: InputSnapshot) -> WalkingState {
    if !spec_any_movement(i) {
        WalkingState::NotWalking
    } else if i.crouch {
        WalkingState::CrouchedWalking
    } else {
        WalkingState::Walking
    }
}

/// Whether any movement key is held.
pub fn any_movement(i: InputSnapshot) -> (held: bool)
    ensures
        held == spec_any_movement(i),
{
    i.forward || i.left || i.back || i.right
}

/// Level-triggered classifier, recomputed from the current sample every tick
/// rather than reacting to press or release edges. A crouch modifier held
/// with no movement key degenerates to `NotWalking`: the movement condition
/// dominates.
pub fn next_walking_state(i: InputSnapshot) -> (s: WalkingState)
    ensures
        s == spec_next_state(i),
        !spec_any_movement(i) ==> s == WalkingState::NotWalking,
        spec_any_movement(i) && !i.crouch ==> s == WalkingState::Walking,
        spec_any_movement(i) && i.crouch ==> s == WalkingState::CrouchedWalking,
{
    if any_movement(i) {
        if i.crouch {
            WalkingState::CrouchedWalking
        } else {
            WalkingState::Walking
        }
    } else {
        WalkingState::NotWalking
    }
}

} // verus!
