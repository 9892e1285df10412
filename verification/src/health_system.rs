//! The health record that an entity carries, and the operations on it.

use vstd::prelude::*;
use crate::limits::{clip, divide_toward_zero, saturate};
use crate::model::{percent_of, HealthModel};

verus! {

/// Whether the entity that carries the record should be alive or dead.
#[derive(Debug, PartialEq, Eq, Copy, Clone, Structural)]
pub enum HealthSystemState {
    /// The entity should be alive. This is the default.
    ALIVE,
    /// The entity should be dead.
    DEAD,
}

/// What shields a record from damage.
#[derive(Debug, PartialEq, Eq, Copy, Clone, Structural)]
pub enum HealthSystemModifier {
    /// Nothing does. This is the default.
    NONE,
    /// The record takes no damage and cannot be killed, unless the call is
    /// forced.
    INVINCIBLE,
}

/// How a revival restores the health.
pub enum HealthSystemReviveHealType {
    /// To the maximum.
    HealFull,
    /// To this value, clamped as when the health is set.
    HealTo(i64),
    /// To this many hundredths of the maximum.
    HealPercentage(i64),
}

impl Default for HealthSystemState {
    fn default() -> (state: Self)
        ensures
            state == HealthSystemState::ALIVE,
    {
        HealthSystemState::ALIVE
    }
}

impl Default for HealthSystemModifier {
    fn default() -> (modifier: Self)
        ensures
            modifier == HealthSystemModifier::NONE,
    {
        HealthSystemModifier::NONE
    }
}

/// The health record of one entity.
///
/// Amounts are whole numbers of a unit that the caller chooses. Sums and
/// differences that would leave the range of `i64` stop at the nearest
/// bound; nothing else limits the health, which damage may carry below zero
/// and healing above the maximum.
#[derive(Debug)]
pub struct HealthSystem {
    health: i64,
    max_health: i64,
    system_state: HealthSystemState,
    system_modifier: HealthSystemModifier,
}

impl View for HealthSystem {
    type V = HealthModel;

    closed spec fn view(&self) -> HealthModel {
        HealthModel {
            health: self.health as int,
            max_health: self.max_health as int,
            state: self.system_state,
            modifier: self.system_modifier,
        }
    }
}

impl HealthSystem {
    /// The amounts of a stored record fit in an `i64`.
    pub proof fn lemma_view_representable(&self)
        ensures
            self@.representable(),
    {
    }

    /// Creates a record at full health with the given maximum. A negative
    /// maximum is kept as it is, and the record starts out dead.
    pub fn new(max_health: i64) -> (system: Self)
        ensures
            system@ == HealthModel::fresh(max_health as int),
    {
        let system_state = if max_health < 0 {
            HealthSystemState::DEAD
        } else {
            HealthSystemState::default()
        };
        HealthSystem {
            health: max_health,
            max_health,
            system_state,
            system_modifier: HealthSystemModifier::NONE,
        }
    }

    /// Revives the record and restores its health as `revive_type` says.
    /// Returns the difference that setting the health reports for `HealTo`,
    /// and zero for the other two ways.
    ///
    /// The record is made alive first. `HealTo` then sets the health as
    /// [`HealthSystem::set_health`] does, so a value of zero or less leaves
    /// the record dead again. `HealPercentage` writes the share of the
    /// maximum straight into the health, with no clamp and no dead-check.
    pub fn revive_system(&mut self, revive_type: HealthSystemReviveHealType) -> (overflow: i64)
        ensures
            final(self)@ == old(self)@.revived(revive_type),
            overflow == old(self)@.revival_overflow(revive_type),
    {
        self.system_state = HealthSystemState::ALIVE;
        match revive_type {
            HealthSystemReviveHealType::HealFull => {
                self.heal_full();
                0
            },
            HealthSystemReviveHealType::HealPercentage(percent) => {
                self.health = share_of(self.max_health, percent);
                0
            },
            HealthSystemReviveHealType::HealTo(value) => self.set_health(value),
        }
    }

    /// Sets the health to `value`, clamped: a negative value becomes zero,
    /// and any other value above the maximum becomes the maximum. The record
    /// dies if `value` itself is zero or less. Returns the maximum less
    /// `value`, whatever the clamp did.
    pub fn set_health(&mut self, value: i64) -> (overflow: i64)
        ensures
            final(self)@ == old(self)@.with_health(value as int),
            overflow == old(self)@.overflow(value as int),
    {
        let mut final_value: i64 = value;
        if value < 0 {
            final_value = 0;
        } else if value > self.max_health {
            final_value = self.max_health;
        }
        if value <= 0 {
            self.system_state = HealthSystemState::DEAD;
        }
        self.health = final_value;
        saturate(self.max_health as i128 - value as i128)
    }

    /// Sets the maximum to `value`, or to zero if `value` is negative. With
    /// `heal_system` the health is put to the new maximum. At the end the
    /// record dies if its health is zero or less.
    pub fn set_health_max(&mut self, value: i64, heal_system: bool)
        ensures
            final(self)@ == old(self)@.with_max_health(value as int, heal_system),
    {
        let mut final_value: i64 = value;
        if value < 0 {
            final_value = 0;
        }
        self.max_health = final_value;
        if heal_system {
            self.heal_full();
        }
        self.check_is_dead();
    }

    /// Takes `amount` from the health, unless the record is invincible and
    /// `force` is not set. The health may go below zero; the record dies if
    /// it ends at zero or less.
    pub fn deal_damage(&mut self, amount: i64, force: bool)
        ensures
            final(self)@ == old(self)@.damaged(amount as int, force),
    {
        if self.current_modifier_is(HealthSystemModifier::INVINCIBLE) && !force {
            return ;
        }
        self.health = saturate(self.health as i128 - amount as i128);
        self.check_is_dead();
    }

    /// Kills the record, unless it is invincible and `force` is not set: the
    /// health becomes zero and the state dead.
    pub fn kill_system(&mut self, force: bool)
        ensures
            final(self)@ == old(self)@.killed(force),
    {
        if self.current_modifier_is(HealthSystemModifier::INVINCIBLE) && !force {
            return ;
        }
        self.health = 0;
        self.system_state = HealthSystemState::DEAD;
    }

    /// Adds `amount` to the health, which may then exceed the maximum, and
    /// returns the maximum less `amount`. The state is left as it is.
    pub fn heal(&mut self, amount: i64) -> (overflow: i64)
        ensures
            final(self)@ == old(self)@.healed(amount as int),
            overflow == old(self)@.overflow(amount as int),
    {
        let overflow_value = saturate(self.max_health as i128 - amount as i128);
        self.health = saturate(self.health as i128 + amount as i128);
        overflow_value
    }

    /// Puts the health to the maximum. The state is left as it is.
    pub fn heal_full(&mut self)
        ensures
            final(self)@ == old(self)@.fully_healed(),
    {
        self.health = self.max_health;
    }

    /// Asks for a new modifier. A dead record ignores the request.
    pub fn set_modifier(&mut self, value: HealthSystemModifier)
        ensures
            final(self)@ == old(self)@.with_modifier(value),
    {
        self.change_modifier(value);
    }

    /// The current health.
    pub fn get_health(&self) -> (health: i64)
        ensures
            health == self@.health,
    {
        self.health
    }

    /// The current maximum.
    pub fn get_health_max(&self) -> (max_health: i64)
        ensures
            max_health == self@.max_health,
    {
        self.max_health
    }

    /// Whether the record is dead.
    pub fn is_dead(&self) -> (dead: bool)
        ensures
            dead == self@.is_dead(),
    {
        self.system_state == HealthSystemState::DEAD
    }

    /// The health as hundredths of the maximum, with the fraction dropped.
    /// No share of a maximum of zero exists, so the caller rules that out.
    pub fn get_health_normalized(&self) -> (share: i64)
        requires
            self@.max_health != 0,
        ensures
            share == self@.normalized(),
    {
        saturate(divide_toward_zero(self.health as i128 * 100, self.max_health as i128))
    }

    /// The current modifier.
    pub fn get_modifier(&self) -> (modifier: HealthSystemModifier)
        ensures
            modifier == self@.modifier,
    {
        self.system_modifier
    }

    /// Whether the current modifier is `modifier`.
    pub fn current_modifier_is(&self, modifier: HealthSystemModifier) -> (same: bool)
        ensures
            same == (self@.modifier == modifier),
    {
        self.get_modifier() == modifier
    }

    fn change_modifier(&mut self, modifier: HealthSystemModifier)
        ensures
            final(self)@ == old(self)@.with_modifier(modifier),
    {
        if self.is_dead() {
            return ;
        }
        self.system_modifier = modifier;
    }

    fn check_is_dead(&mut self)
        ensures
            final(self)@ == old(self)@.dead_checked(),
    {
        if self.health <= 0 {
            self.system_state = HealthSystemState::DEAD;
        }
    }
}

/// `percent` hundredths of `max_health`, with the fraction dropped, stopping
/// at the bounds of `i64`.
fn share_of(max_health: i64, percent: i64) -> (share: i64)
    ensures
        share == clip(percent_of(max_health as int, percent as int)),
{
    assert(-0x4000_0000_0000_0000_0000_0000_0000_0000 <= (max_health as int) * (percent as int)
        <= 0x4000_0000_0000_0000_0000_0000_0000_0000) by (nonlinear_arith)
        requires
            -0x8000_0000_0000_0000 <= max_health as int <= 0x8000_0000_0000_0000,
            -0x8000_0000_0000_0000 <= percent as int <= 0x8000_0000_0000_0000,
    ;
    saturate(divide_toward_zero(max_health as i128 * percent as i128, 100))
}

} // verus!
