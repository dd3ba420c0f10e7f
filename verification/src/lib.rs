//! Core of a continuous 2D evolution arena: agents ("sectarii") driven by
//! evolved neural controllers compete for food and prey on each other.
//!
//! All simulation quantities are held in fixed-point units (see [`units`]),
//! so every rule of the core — metabolism, sensing, combat transfers,
//! reproduction and scheduling — is exact integer arithmetic with proved
//! contracts.

pub mod angle;
pub mod bridge;
pub mod chance;
pub mod clock;
pub mod food;
pub mod population;
pub mod repro;
pub mod schedule;
pub mod sectarii;
pub mod sensor;
pub mod species;
pub mod units;
pub mod vitals;
pub mod world;
