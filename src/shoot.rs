use vstd::prelude::*;
use crate::index::TextureIndex;

verus! {

/// One phase of a weapon animation: how long it lasts and what it shows.
#[derive(Debug, Copy, Clone, PartialEq, Eq, Structural)]
pub struct AnimationStep {
    duration_in_microseconds: u128,
    texture: TextureIndex,
}

/// The three phases of a weapon swing, its idle texture and its damage.
#[derive(Debug, Copy, Clone, PartialEq, Eq, Structural)]
pub struct WeaponConfiguration {
    startup: AnimationStep,
    active: AnimationStep,
    recovery: AnimationStep,
    default: TextureIndex,
    damage: u32,
}

/// Where a swing stands.
#[derive(Debug, Copy, Clone, PartialEq, Eq, Structural)]
pub enum ShootState {
    Startup,
    Active,
    AlreadyHit,
    Recovery,
    Finished,
}

/// A weapon and the time since its swing began.
#[derive(Debug, Copy, Clone, PartialEq, Eq, Structural)]
pub struct Weapon {
    configuration: WeaponConfiguration,
    already_hit: bool,
    elapsed_in_microseconds: u128,
}

/// The phase reached `elapsed` microseconds into a swing whose phases last
/// `startup`, `active` and `recovery` microseconds.
pub open spec fn phase_at(startup: int, active: int, recovery: int, elapsed: int) -> ShootState {
    if elapsed < startup {
        ShootState::Startup
    } else if elapsed < startup + active {
        ShootState::Active
    } else if elapsed < startup + active + recovery {
        ShootState::Recovery
    } else {
        ShootState::Finished
    }
}

impl AnimationStep {
    pub closed spec fn spec_duration(&self) -> u128 {
        self.duration_in_microseconds
    }

    pub closed spec fn spec_texture(&self) -> TextureIndex {
        self.texture
    }

    pub fn new(duration_in_microseconds: u128, texture: TextureIndex) -> (r: Self)
        ensures
            r.spec_duration() == duration_in_microseconds,
            r.spec_texture() == texture,
    {
        Self { duration_in_microseconds, texture }
    }

    pub fn duration_in_microseconds(&self) -> (r: u128)
        ensures
            r == self.spec_duration(),
    {
        self.duration_in_microseconds
    }

    pub fn texture(&self) -> (r: TextureIndex)
        ensures
            r == self.spec_texture(),
    {
        self.texture
    }
}

impl WeaponConfiguration {
    pub closed spec fn spec_startup(&self) -> AnimationStep {
        self.startup
    }

    pub closed spec fn spec_active(&self) -> AnimationStep {
        self.active
    }

    pub closed spec fn spec_recovery(&self) -> AnimationStep {
        self.recovery
    }

    pub closed spec fn spec_default(&self) -> TextureIndex {
        self.default
    }

    pub closed spec fn spec_damage(&self) -> u32 {
        self.damage
    }

    /// The phase reached `elapsed` microseconds into a swing.
    pub open spec fn spec_state(&self, elapsed: int) -> ShootState {
        phase_at(
            self.spec_startup().spec_duration() as int,
            self.spec_active().spec_duration() as int,
            self.spec_recovery().spec_duration() as int,
            elapsed,
        )
    }

    pub fn new(
        default: TextureIndex,
        startup: AnimationStep,
        active: AnimationStep,
        recovery: AnimationStep,
        damage: u32,
    ) -> (r: Self)
        ensures
            r.spec_default() == default,
            r.spec_startup() == startup,
            r.spec_active() == active,
            r.spec_recovery() == recovery,
            r.spec_damage() == damage,
    {
        Self { default, startup, active, recovery, damage }
    }

    /// The phase reached `elapsed_in_microseconds` into a swing; the sums of
    /// durations are taken without bound.
    pub fn state(&self, elapsed_in_microseconds: u128) -> (r: ShootState)
        ensures
            r == self.spec_state(elapsed_in_microseconds as int),
            r != ShootState::AlreadyHit,
    {
        let startup = self.startup.duration_in_microseconds;
        let active = self.active.duration_in_microseconds;
        let recovery = self.recovery.duration_in_microseconds;
        if elapsed_in_microseconds < startup {
            ShootState::Startup
        } else if elapsed_in_microseconds - startup < active {
            ShootState::Active
        } else if elapsed_in_microseconds - startup - active < recovery {
            ShootState::Recovery
        } else {
            ShootState::Finished
        }
    }

    pub fn default(&self) -> (r: TextureIndex)
        ensures
            r == self.spec_default(),
    {
        self.default
    }

    pub fn startup(&self) -> (r: AnimationStep)
        ensures
            r == self.spec_startup(),
    {
        self.startup
    }

    pub fn active(&self) -> (r: AnimationStep)
        ensures
            r == self.spec_active(),
    {
        self.active
    }

    pub fn recovery(&self) -> (r: AnimationStep)
        ensures
            r == self.spec_recovery(),
    {
        self.recovery
    }

    pub fn damage(&self) -> (r: u32)
        ensures
            r == self.spec_damage(),
    {
        self.damage
    }
}

impl Weapon {
    pub closed spec fn spec_configuration(&self) -> WeaponConfiguration {
        self.configuration
    }

    pub closed spec fn spec_already_hit(&self) -> bool {
        self.already_hit
    }

    pub closed spec fn spec_elapsed(&self) -> u128 {
        self.elapsed_in_microseconds
    }

    /// The phase of the swing, where an active phase that has already hit is
    /// reported as such.
    pub open spec fn spec_state(&self) -> ShootState {
        let normal = self.spec_configuration().spec_state(self.spec_elapsed() as int);
        if normal == ShootState::Active && self.spec_already_hit() {
            ShootState::AlreadyHit
        } else {
            normal
        }
    }

    pub fn new(configuration: WeaponConfiguration) -> (r: Self)
        ensures
            r.spec_configuration() == configuration,
            !r.spec_already_hit(),
            r.spec_elapsed() == 0,
    {
        Self { configuration, already_hit: false, elapsed_in_microseconds: 0 }
    }

    /// Starts a new swing, but only once the previous one has finished.
    pub fn action(&mut self)
        ensures
            final(self).spec_configuration() == old(self).spec_configuration(),
            old(self).spec_state() == ShootState::Finished ==> !final(self).spec_already_hit()
                && final(self).spec_elapsed() == 0,
            old(self).spec_state() != ShootState::Finished ==> *final(self) == *old(self),
    {
        let current_state = self.state();
        if current_state == ShootState::Finished {
            self.already_hit = false;
            self.elapsed_in_microseconds = 0;
        }
    }

    pub fn notify_hit(&mut self)
        ensures
            final(self).spec_configuration() == old(self).spec_configuration(),
            final(self).spec_elapsed() == old(self).spec_elapsed(),
            final(self).spec_already_hit(),
    {
        self.already_hit = true;
    }

    pub fn state(&self) -> (r: ShootState)
        ensures
            r == self.spec_state(),
    {
        let normal_state = self.configuration.state(self.elapsed_in_microseconds);
        if normal_state == ShootState::Active && self.already_hit {
            ShootState::AlreadyHit
        } else {
            normal_state
        }
    }

    /// Advances the swing by `microseconds`.
    pub fn notify_elapsed(&mut self, microseconds: u128)
        requires
            old(self).spec_elapsed() + microseconds <= u128::MAX,
        ensures
            final(self).spec_configuration() == old(self).spec_configuration(),
            final(self).spec_already_hit() == old(self).spec_already_hit(),
            final(self).spec_elapsed() == old(self).spec_elapsed() + microseconds,
    {
        self.elapsed_in_microseconds = self.elapsed_in_microseconds + microseconds;
    }

    pub fn elapsed_in_microseconds(&self) -> (r: u128)
        ensures
            r == self.spec_elapsed(),
    {
        self.elapsed_in_microseconds
    }

    pub fn configuration(&self) -> (r: WeaponConfiguration)
        ensures
            r == self.spec_configuration(),
    {
        self.configuration
    }
}

} // verus!
