use wolfengate::actions::{ActionState, LinearActionState, NothingActionState};
use wolfengate::door::{LateralOpening, Openable, FULL};

fn lateral() -> Openable {
    Openable::Lateral(LateralOpening::new())
}

#[test]
fn actions_should_activate_at_50_percentage_at_mid_timer() {
    let action = LinearActionState::new(1_000_000, lateral()).trigger().elapsed(500000);

    assert_eq!(500_000, action.activated_percentage());
}

#[test]
fn actions_should_activate_at_25_percentage_at_quarter_timer() {
    let action = LinearActionState::new(500_000, lateral()).trigger().elapsed(500000);

    assert_eq!(250_000, action.activated_percentage());
}

#[test]
fn actions_percentage_should_not_go_below_0() {
    let action = LinearActionState::new(999_000_000, lateral()).elapsed(99999999999999999999999);

    assert_eq!(0, action.activated_percentage());
}

#[test]
fn actions_percentage_should_not_go_above_1() {
    let action = LinearActionState::new(999_000_000, lateral())
        .trigger()
        .elapsed(99999999999999999999999);

    assert_eq!(FULL, action.activated_percentage());
}

#[test]
fn actions_should_keep_opening_percentage_when_reactivating_before_previous_state_finished() {
    let action = LinearActionState::new(1_000_000, lateral())
        .trigger()
        .elapsed(500000)
        .trigger()
        .elapsed(250000);

    assert_eq!(250_000, action.activated_percentage());
}

#[test]
fn trigger_without_time_leaves_a_closed_door_closed() {
    let action = LinearActionState::new(1_000_000, lateral()).trigger();
    assert_eq!(0, action.activated_percentage());
    let state = ActionState::Linear(LinearActionState::new(1_000_000, lateral())).trigger();
    assert_eq!(0, state.activated_percentage());
}

#[test]
fn largest_elapsed_time_saturates() {
    let opening = LinearActionState::new(1, lateral()).trigger().elapsed(u128::MAX);
    assert_eq!(FULL, opening.activated_percentage());
    let closing = opening.trigger().elapsed(u128::MAX);
    assert_eq!(0, closing.activated_percentage());
    let idle = LinearActionState::new(0, lateral()).trigger().elapsed(u128::MAX);
    assert_eq!(0, idle.activated_percentage());
}

#[test]
fn small_steps_are_rounded_down() {
    let action = LinearActionState::new(3, lateral()).trigger().elapsed(999_999);
    assert_eq!(2, action.activated_percentage());
}

#[test]
fn nothing_state_never_opens() {
    let state = ActionState::Nothing(NothingActionState::new());
    let later = state.trigger().elapsed(1_000_000_000);
    assert_eq!(0, later.activated_percentage());
    assert!(later.blocks_movement());
    assert_eq!(lateral(), later.openable());
}

#[test]
fn marker_blocks_unless_fully_open() {
    let almost = ActionState::Linear(LinearActionState::new(1_000_000, lateral()).trigger().elapsed(999_000));
    assert_eq!(999_000, almost.activated_percentage());
    assert!(almost.blocks_movement());
    let open = almost.elapsed(1_000);
    assert_eq!(FULL, open.activated_percentage());
    assert!(!open.blocks_movement());
}
