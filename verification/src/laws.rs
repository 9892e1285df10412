//! What holds of the operations on a health record, for every record and
//! every amount.

use vstd::prelude::*;
use crate::health_system::{HealthSystemModifier, HealthSystemReviveHealType, HealthSystemState};
use crate::limits::{clip, quotient_toward_zero};
use crate::model::{percent_of, HealthModel};

verus! {

/// A record created with a maximum of zero or more is alive, and both its
/// health and its maximum are the value it was created with.
pub proof fn law_new_is_full_and_alive(max_health: int)
    requires
        max_health >= 0,
    ensures
        HealthModel::fresh(max_health).health == max_health,
        HealthModel::fresh(max_health).max_health == max_health,
        !HealthModel::fresh(max_health).is_dead(),
{
}

/// A record created with a negative maximum is dead from the start, and its
/// health is that negative value.
pub proof fn law_new_negative_is_dead(max_health: int)
    requires
        max_health < 0,
    ensures
        HealthModel::fresh(max_health).is_dead(),
        HealthModel::fresh(max_health).health == max_health,
{
}

/// Unforced damage to a living record that is not invincible takes the
/// amount from the health, exactly so wherever the difference fits in an
/// `i64`, and the record is dead afterwards just when the difference is zero
/// or less.
pub proof fn law_damage_subtracts(before: HealthModel, amount: int)
    requires
        before.modifier != HealthSystemModifier::INVINCIBLE,
        !before.is_dead(),
    ensures
        before.damaged(amount, false).health == clip(before.health - amount),
        i64::MIN <= before.health - amount <= i64::MAX ==> before.damaged(amount, false).health
            == before.health - amount,
        before.damaged(amount, false).is_dead() == (before.health - amount <= 0),
        before.damaged(amount, false).max_health == before.max_health,
        before.damaged(amount, false).modifier == before.modifier,
{
}

/// Unforced damage leaves an invincible record exactly as it was.
pub proof fn law_invincible_ignores_damage(before: HealthModel, amount: int)
    requires
        before.modifier == HealthSystemModifier::INVINCIBLE,
    ensures
        before.damaged(amount, false) == before,
{
}

/// Forced damage does to an invincible record what unforced damage does to
/// the same record without the modifier, and the modifier stays.
pub proof fn law_forced_damage_passes_invincibility(before: HealthModel, amount: int)
    requires
        before.modifier == HealthSystemModifier::INVINCIBLE,
    ensures
        before.damaged(amount, true) == (HealthModel {
            modifier: HealthSystemModifier::INVINCIBLE,
            ..(HealthModel { modifier: HealthSystemModifier::NONE, ..before }).damaged(
                amount,
                false,
            )
        }),
{
}

/// An unforced kill of a record that is not invincible leaves it dead with
/// no health, whatever its health was.
pub proof fn law_kill_empties(before: HealthModel)
    requires
        before.modifier != HealthSystemModifier::INVINCIBLE,
    ensures
        before.killed(false).health == 0,
        before.killed(false).is_dead(),
        before.killed(false).max_health == before.max_health,
{
}

/// A kill leaves an invincible record as it was unless it is forced, and a
/// forced kill always leaves the record dead with no health.
pub proof fn law_kill_respects_invincibility(before: HealthModel)
    ensures
        before.modifier == HealthSystemModifier::INVINCIBLE ==> before.killed(false) == before,
        before.killed(true).health == 0,
        before.killed(true).is_dead(),
{
}

/// Setting the health stores the value itself where it lies between zero and
/// the maximum, zero where it is negative, and the maximum where it is above
/// the maximum and not negative.
pub proof fn law_set_health_clamps(before: HealthModel, value: int)
    ensures
        0 <= value <= before.max_health ==> before.with_health(value).health == value,
        value < 0 ==> before.with_health(value).health == 0,
        value > before.max_health && value >= 0 ==> before.with_health(value).health
            == before.max_health,
        before.with_health(value).max_health == before.max_health,
        before.with_health(value).is_dead() == (before.is_dead() || value <= 0),
{
}

/// Setting the maximum together with a heal leaves the maximum at the value,
/// or at zero for a negative value, and the health at that maximum.
pub proof fn law_set_health_max_heals(before: HealthModel, value: int)
    ensures
        before.with_max_health(value, true).max_health == (if value < 0 {
            0
        } else {
            value
        }),
        before.with_max_health(value, true).health == before.with_max_health(
            value,
            true,
        ).max_health,
{
}

/// Setting the maximum without a heal leaves the health as it was and the
/// record dead just when it was dead before or has no health above zero.
pub proof fn law_set_health_max_checks(before: HealthModel, value: int)
    ensures
        before.with_max_health(value, false).health == before.health,
        before.with_max_health(value, false).max_health >= 0,
        before.with_max_health(value, false).is_dead() == (before.is_dead() || before.health
            <= 0),
{
}

/// Lowering the maximum below the health, without a heal, of a record that
/// is dead or has no health above zero leaves the record dead.
pub proof fn law_lowered_maximum_is_dead(before: HealthModel, value: int)
    requires
        value < before.health,
        before.is_dead() || before.health <= 0,
    ensures
        before.with_max_health(value, false).is_dead(),
{
}

/// Only a revival brings a dead record back: after any other operation a
/// record that was dead is dead still.
pub proof fn law_dead_stays_dead(
    before: HealthModel,
    amount: int,
    force: bool,
    heal_system: bool,
    modifier: HealthSystemModifier,
)
    requires
        before.is_dead(),
    ensures
        before.damaged(amount, force).is_dead(),
        before.killed(force).is_dead(),
        before.healed(amount).is_dead(),
        before.fully_healed().is_dead(),
        before.with_health(amount).is_dead(),
        before.with_max_health(amount, heal_system).is_dead(),
        before.with_modifier(modifier).is_dead(),
        before.with_modifier(modifier) == before,
{
}

/// A revival that heals in full leaves the record alive at its maximum, and
/// one that heals to a value above zero leaves it alive at the clamped
/// value.
pub proof fn law_revival_restores(before: HealthModel, value: i64)
    ensures
        before.revived(HealthSystemReviveHealType::HealFull).state == HealthSystemState::ALIVE,
        before.revived(HealthSystemReviveHealType::HealFull).health == before.max_health,
        before.revived(HealthSystemReviveHealType::HealTo(value)).is_dead() == (value <= 0),
        0 <= value <= before.max_health ==> before.revived(
            HealthSystemReviveHealType::HealTo(value),
        ).health == value,
{
}

/// Healing adds the amount to the health, exactly so wherever the sum fits
/// in an `i64`, and reports the maximum less the amount, whatever the health
/// was.
pub proof fn law_heal_adds(before: HealthModel, amount: int)
    ensures
        i64::MIN <= before.health + amount <= i64::MAX ==> before.healed(amount).health
            == before.health + amount,
        i64::MIN <= before.max_health - amount <= i64::MAX ==> before.overflow(amount)
            == before.max_health - amount,
        before.healed(amount).state == before.state,
        before.healed(amount).max_health == before.max_health,
{
}

/// After damage or a kill that the modifier did not turn away, and after
/// any change of the maximum, a record with no health above zero is dead.
pub proof fn law_no_health_means_dead(
    before: HealthModel,
    amount: int,
    force: bool,
    heal_system: bool,
)
    ensures
        !before.shielded(force) && before.damaged(amount, force).health <= 0
            ==> before.damaged(amount, force).is_dead(),
        !before.shielded(force) ==> before.killed(force).health == 0 && before.killed(
            force,
        ).is_dead(),
        before.with_max_health(amount, heal_system).health <= 0 ==> before.with_max_health(
            amount,
            heal_system,
        ).is_dead(),
{
}

/// Only setting the maximum changes it, and what it sets is never negative.
pub proof fn law_maximum_is_kept(
    before: HealthModel,
    amount: int,
    force: bool,
    heal_system: bool,
    modifier: HealthSystemModifier,
    revive_type: HealthSystemReviveHealType,
)
    ensures
        before.damaged(amount, force).max_health == before.max_health,
        before.killed(force).max_health == before.max_health,
        before.healed(amount).max_health == before.max_health,
        before.fully_healed().max_health == before.max_health,
        before.with_health(amount).max_health == before.max_health,
        before.with_modifier(modifier).max_health == before.max_health,
        before.revived(revive_type).max_health == before.max_health,
        before.with_max_health(amount, heal_system).max_health >= 0,
{
}

/// A living record takes the modifier it is given, and no operation but
/// that request changes the modifier.
pub proof fn law_modifier_follows_requests(
    before: HealthModel,
    amount: int,
    force: bool,
    heal_system: bool,
    modifier: HealthSystemModifier,
    revive_type: HealthSystemReviveHealType,
)
    ensures
        !before.is_dead() ==> before.with_modifier(modifier).modifier == modifier,
        before.with_modifier(modifier).health == before.health,
        before.with_modifier(modifier).state == before.state,
        before.damaged(amount, force).modifier == before.modifier,
        before.killed(force).modifier == before.modifier,
        before.healed(amount).modifier == before.modifier,
        before.fully_healed().modifier == before.modifier,
        before.with_health(amount).modifier == before.modifier,
        before.with_max_health(amount, heal_system).modifier == before.modifier,
        before.revived(revive_type).modifier == before.modifier,
{
}

/// A hundred hundredths of an amount are the amount and none of them are
/// nothing, so a revival to a hundred per cent heals in full, and a record
/// at full health, with an `i64` maximum other than zero, is at a hundred
/// hundredths of it.
pub proof fn law_whole_percentage(before: HealthModel)
    ensures
        percent_of(before.max_health, 100) == before.max_health,
        percent_of(before.max_health, 0) == 0,
        i64::MIN <= before.max_health <= i64::MAX ==> before.revived(
            HealthSystemReviveHealType::HealPercentage(100),
        ) == before.revived(HealthSystemReviveHealType::HealFull),
        before.max_health != 0 && i64::MIN <= before.max_health <= i64::MAX
            ==> before.fully_healed().normalized() == 100,
{
    let whole = before.max_health;
    let size = if whole < 0 {
        -whole
    } else {
        whole
    };
    assert((size * 100) / 100 == size) by (nonlinear_arith);
    assert((-whole) * 100 == -(whole * 100)) by (nonlinear_arith);
    assert(whole * 0 == 0) by (nonlinear_arith);
    assert(0int / 100 == 0);
    if whole != 0 {
        assert((size * 100) / size == 100) by (nonlinear_arith)
            requires
                size > 0,
        ;
        assert(quotient_toward_zero(whole * 100, whole) == 100);
    }
}

/// Every operation on a record whose amounts fit in an `i64` leaves a record
/// whose amounts fit, whatever it is given.
pub proof fn law_operations_stay_representable(
    before: HealthModel,
    amount: i64,
    force: bool,
    heal_system: bool,
    modifier: HealthSystemModifier,
    revive_type: HealthSystemReviveHealType,
)
    requires
        before.representable(),
    ensures
        HealthModel::fresh(amount as int).representable(),
        before.damaged(amount as int, force).representable(),
        before.killed(force).representable(),
        before.healed(amount as int).representable(),
        before.fully_healed().representable(),
        before.with_health(amount as int).representable(),
        before.with_max_health(amount as int, heal_system).representable(),
        before.with_modifier(modifier).representable(),
        before.revived(revive_type).representable(),
{
}

} // verus!
