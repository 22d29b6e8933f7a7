use wolfengate::index::TextureIndex;
use wolfengate::shoot::{AnimationStep, ShootState, Weapon, WeaponConfiguration};

fn to_microseconds(seconds: f32) -> u128 {
    (seconds * 1000000.0) as u128
}

fn build_configuration(startup: f32, active: f32, recovery: f32, damage: u32) -> WeaponConfiguration {
    let texture: TextureIndex = TextureIndex::new(0);

    let startup = AnimationStep::new(to_microseconds(startup), texture);
    let active = AnimationStep::new(to_microseconds(active), texture);
    let recovery = AnimationStep::new(to_microseconds(recovery), texture);

    WeaponConfiguration::new(texture, startup, active, recovery, damage)
}

#[test]
fn should_go_to_finished_state() {
    let conf = build_configuration(0.1, 1.0, 1.0, 100);
    let mut weapon = Weapon::new(conf);

    weapon.action();
    weapon.notify_elapsed(100);

    weapon.action();

    assert_eq!(100, weapon.elapsed_in_microseconds());
}

#[test]
fn should_go_to_already_hit_state() {
    let conf = build_configuration(0.1, 100.0, 1.0, 100);

    let mut weapon = Weapon::new(conf);
    weapon.action();
    weapon.notify_elapsed(1000000);
    weapon.notify_hit();

    assert_eq!(weapon.state(), ShootState::AlreadyHit);
}

#[test]
fn already_hit_should_be_reset_after_a_new_action_call() {
    let conf = build_configuration(0.1, 100.0, 1.0, 100);

    let mut weapon = Weapon::new(conf);
    weapon.action();
    weapon.notify_hit();
    weapon.notify_elapsed(1000000000);

    weapon.action();
    weapon.notify_elapsed(1000000);

    assert_eq!(weapon.state(), ShootState::Active);
}

#[test]
fn default_state_is_startup() {
    let conf = build_configuration(1.0, 1.0, 1.0, 150);

    assert_eq!(ShootState::Startup, conf.state(0));
}

#[test]
fn should_go_to_active_state() {
    let conf = build_configuration(0.1, 1.0, 1.0, 150);

    assert_eq!(ShootState::Active, conf.state(to_microseconds(0.2)));
}

#[test]
fn should_go_to_recovery_state() {
    let conf = build_configuration(0.1, 1.0, 1.0, 150);

    assert_eq!(ShootState::Recovery, conf.state(to_microseconds(1.2)));
}

#[test]
fn phases_change_exactly_at_their_boundaries() {
    let texture = TextureIndex::new(3);
    let conf = WeaponConfiguration::new(
        texture,
        AnimationStep::new(10, texture),
        AnimationStep::new(20, texture),
        AnimationStep::new(30, texture),
        7,
    );
    assert_eq!(ShootState::Startup, conf.state(9));
    assert_eq!(ShootState::Active, conf.state(10));
    assert_eq!(ShootState::Active, conf.state(29));
    assert_eq!(ShootState::Recovery, conf.state(30));
    assert_eq!(ShootState::Recovery, conf.state(59));
    assert_eq!(ShootState::Finished, conf.state(60));
    assert_eq!(7, conf.damage());
    assert_eq!(20, conf.active().duration_in_microseconds());
    assert_eq!(3, conf.default().id());
}

#[test]
fn huge_durations_do_not_overflow_the_phases() {
    let texture = TextureIndex::new(0);
    let conf = WeaponConfiguration::new(
        texture,
        AnimationStep::new(u128::MAX, texture),
        AnimationStep::new(u128::MAX, texture),
        AnimationStep::new(u128::MAX, texture),
        1,
    );
    assert_eq!(ShootState::Startup, conf.state(u128::MAX - 1));
    assert_eq!(ShootState::Active, conf.state(u128::MAX));
}

#[test]
fn action_during_a_swing_changes_nothing() {
    let conf = build_configuration(0.1, 1.0, 1.0, 100);
    let mut weapon = Weapon::new(conf);
    weapon.notify_elapsed(200000);
    weapon.notify_hit();
    weapon.action();
    assert_eq!(200000, weapon.elapsed_in_microseconds());
    assert_eq!(ShootState::AlreadyHit, weapon.state());
}
