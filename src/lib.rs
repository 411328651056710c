//! Discrete core of a 2-D particle simulation: particle kinds and their
//! interaction rules, a capacity-bounded population with deferred removal,
//! a proximity-based life rule, and the tick schedule.

pub mod kind;
pub mod population;
pub mod contact;
pub mod forces;
pub mod overlay;
pub mod schedule;
pub mod seeding;
