//! The component catalogue: one module per component kind, each a closed set
//! of variants with fixed mass, power and slot-cost figures.

pub mod bridge;
pub mod engine;
pub mod frame;
pub mod life_support;
pub mod reactor;
pub mod sensors;
pub mod shield;
