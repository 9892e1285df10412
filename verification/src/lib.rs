//! A health record for game entities: hit points, damage, healing, death and
//! a damage-immunity modifier, with every operation verified against a
//! mathematical model of the record.

pub mod health_system;
pub mod laws;
pub mod limits;
pub mod model;

pub use self::health_system::{
    HealthSystem, HealthSystemModifier, HealthSystemReviveHealType, HealthSystemState,
};
