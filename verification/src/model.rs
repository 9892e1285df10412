//! The health record as a mathematical value, and each operation on it as a
//! function from the record before to the record after.

use vstd::prelude::*;
use crate::health_system::{HealthSystemModifier, HealthSystemReviveHealType, HealthSystemState};
use crate::limits::{clip, quotient_toward_zero};

verus! {

/// What a health record holds, with its amounts as unbounded integers.
pub struct HealthModel {
    /// Current hit points. Damage and healing may carry it below zero or
    /// above `max_health`.
    pub health: int,
    /// The hit points of a record at full health.
    pub max_health: int,
    /// Whether the record counts as alive or dead.
    pub state: HealthSystemState,
    /// What currently shields the record from damage, if anything.
    pub modifier: HealthSystemModifier,
}

/// `percent` hundredths of `whole`, with the fraction dropped.
pub open spec fn percent_of(whole: int, percent: int) -> int {
    quotient_toward_zero(whole * percent, 100)
}

/// `value` moved into the span from zero to `max_health`: a negative value
/// becomes zero, and any other value above `max_health` becomes `max_health`.
pub open spec fn clamp_health(value: int, max_health: int) -> int {
    if value < 0 {
        0
    } else if value > max_health {
        max_health
    } else {
        value
    }
}

impl HealthModel {
    /// The record of a newly created entity: at full health, unshielded, and
    /// alive unless its maximum is negative.
    pub open spec fn fresh(max_health: int) -> HealthModel {
        HealthModel {
            health: max_health,
            max_health,
            state: if max_health < 0 {
                HealthSystemState::DEAD
            } else {
                HealthSystemState::ALIVE
            },
            modifier: HealthSystemModifier::NONE,
        }
    }

    /// Whether both amounts fit in an `i64`, as those of every stored record
    /// do.
    pub open spec fn representable(self) -> bool {
        &&& i64::MIN <= self.health <= i64::MAX
        &&& i64::MIN <= self.max_health <= i64::MAX
    }

    /// Whether the record is in the dead state.
    pub open spec fn is_dead(self) -> bool {
        self.state == HealthSystemState::DEAD
    }

    /// Whether the modifier turns away a call made with this `force` flag.
    pub open spec fn shielded(self, force: bool) -> bool {
        self.modifier == HealthSystemModifier::INVINCIBLE && !force
    }

    /// The dead-check: a record whose health is zero or less becomes dead;
    /// any other record keeps its state.
    pub open spec fn dead_checked(self) -> HealthModel {
        if self.health <= 0 {
            HealthModel { state: HealthSystemState::DEAD, ..self }
        } else {
            self
        }
    }

    /// The health as hundredths of the maximum, with the fraction dropped,
    /// held to the range of `i64`.
    pub open spec fn normalized(self) -> int
        recommends
            self.max_health != 0,
    {
        clip(quotient_toward_zero(self.health * 100, self.max_health))
    }

    /// The difference reported by healing and by setting the health: the
    /// maximum less the amount asked for, held to the range of `i64`.
    pub open spec fn overflow(self, requested: int) -> int {
        clip(self.max_health - requested)
    }

    /// The record after damage of `amount`. A shielded record is unchanged.
    /// Otherwise the amount is taken from the health, which stops only at the
    /// bounds of `i64`, and the record dies if the difference is zero or less.
    pub open spec fn damaged(self, amount: int, force: bool) -> HealthModel {
        if self.shielded(force) {
            self
        } else {
            HealthModel {
                health: clip(self.health - amount),
                state: if self.health - amount <= 0 {
                    HealthSystemState::DEAD
                } else {
                    self.state
                },
                ..self
            }
        }
    }

    /// The record after a kill. A shielded record is unchanged; any other is
    /// dead with no health left.
    pub open spec fn killed(self, force: bool) -> HealthModel {
        if self.shielded(force) {
            self
        } else {
            HealthModel { health: 0, state: HealthSystemState::DEAD, ..self }
        }
    }

    /// The record after healing by `amount`: the amount is added to the
    /// health, which stops only at the bounds of `i64`. The maximum does not
    /// limit it, and the state is left alone.
    pub open spec fn healed(self, amount: int) -> HealthModel {
        HealthModel { health: clip(self.health + amount), ..self }
    }

    /// The record with its health put back to the maximum.
    pub open spec fn fully_healed(self) -> HealthModel {
        HealthModel { health: self.max_health, ..self }
    }

    /// The record after its health is set to `value`: the health is the
    /// clamped value, and the record dies if `value` itself is zero or less.
    pub open spec fn with_health(self, value: int) -> HealthModel {
        HealthModel {
            health: clamp_health(value, self.max_health),
            state: if value <= 0 {
                HealthSystemState::DEAD
            } else {
                self.state
            },
            ..self
        }
    }

    /// The record after its maximum is set to `value`: a negative value
    /// counts as zero, the health follows the new maximum if `heal_system`
    /// is set, and the dead-check runs on the result.
    pub open spec fn with_max_health(self, value: int, heal_system: bool) -> HealthModel {
        let raised = HealthModel { max_health: if value < 0 { 0 } else { value }, ..self };
        if heal_system {
            raised.fully_healed().dead_checked()
        } else {
            raised.dead_checked()
        }
    }

    /// The record after a request for a new modifier, which a dead record
    /// ignores.
    pub open spec fn with_modifier(self, value: HealthSystemModifier) -> HealthModel {
        if self.is_dead() {
            self
        } else {
            HealthModel { modifier: value, ..self }
        }
    }

    /// The record after a revival: alive again, with its health restored in
    /// the way that `revive_type` names.
    pub open spec fn revived(self, revive_type: HealthSystemReviveHealType) -> HealthModel {
        let alive = HealthModel { state: HealthSystemState::ALIVE, ..self };
        match revive_type {
            HealthSystemReviveHealType::HealFull => alive.fully_healed(),
            HealthSystemReviveHealType::HealTo(value) => alive.with_health(value as int),
            HealthSystemReviveHealType::HealPercentage(percent) => HealthModel {
                health: clip(percent_of(self.max_health, percent as int)),
                ..alive
            },
        }
    }

    /// The difference that a revival reports: that of setting the health for
    /// `HealTo`, and zero for the other two.
    pub open spec fn revival_overflow(self, revive_type: HealthSystemReviveHealType) -> int {
        match revive_type {
            HealthSystemReviveHealType::HealTo(value) => self.overflow(value as int),
            _ => 0,
        }
    }
}

} // verus!
