use footsteps::state::{any_movement, next_walking_state, InputSnapshot, WalkingState};

fn keys(forward: bool, left: bool, back: bool, right: bool, crouch: bool) -> InputSnapshot {
    InputSnapshot { forward, left, back, right, crouch }
}

#[test]
fn default_state_is_not_walking() {
    assert_eq!(WalkingState::default(), WalkingState::NotWalking);
}

#[test]
fn no_keys_gives_not_walking() {
    assert_eq!(
        next_walking_state(keys(false, false, false, false, false)),
        WalkingState::NotWalking
    );
}

#[test]
fn crouch_alone_gives_not_walking() {
    // the movement condition dominates the inconsistent sample
    assert_eq!(
        next_walking_state(keys(false, false, false, false, true)),
        WalkingState::NotWalking
    );
}

#[test]
fn each_movement_key_gives_walking() {
    assert_eq!(
        next_walking_state(keys(true, false, false, false, false)),
        WalkingState::Walking
    );
    assert_eq!(
        next_walking_state(keys(false, true, false, false, false)),
        WalkingState::Walking
    );
    assert_eq!(
        next_walking_state(keys(false, false, true, false, false)),
        WalkingState::Walking
    );
    assert_eq!(
        next_walking_state(keys(false, false, false, true, false)),
        WalkingState::Walking
    );
}

#[test]
fn movement_with_crouch_gives_crouched_walking() {
    assert_eq!(
        next_walking_state(keys(true, false, false, false, true)),
        WalkingState::CrouchedWalking
    );
    assert_eq!(
        next_walking_state(keys(false, true, false, false, true)),
        WalkingState::CrouchedWalking
    );
    assert_eq!(
        next_walking_state(keys(false, false, true, false, true)),
        WalkingState::CrouchedWalking
    );
    assert_eq!(
        next_walking_state(keys(false, false, false, true, true)),
        WalkingState::CrouchedWalking
    );
}

#[test]
fn all_keys_together_give_crouched_walking() {
    assert_eq!(
        next_walking_state(keys(true, true, true, true, true)),
        WalkingState::CrouchedWalking
    );
}

#[test]
fn several_movement_keys_without_crouch_give_walking() {
    assert_eq!(
        next_walking_state(keys(true, false, true, true, false)),
        WalkingState::Walking
    );
}

#[test]
fn any_movement_reports_held_movement_keys() {
    assert!(!any_movement(keys(false, false, false, false, false)));
    assert!(!any_movement(keys(false, false, false, false, true)));
    assert!(any_movement(keys(true, false, false, false, false)));
    assert!(any_movement(keys(false, false, false, true, true)));
}
