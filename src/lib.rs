//! Safety-enforcement layer around a model-predictive control loop.
//!
//! All normalized quantities are fixed-point integers: one unit is
//! `risk::SCALE` ticks (micro-units), so `0.25` is written `250_000`.
pub mod risk;
pub mod decision;
pub mod bioscale_guard;
pub mod lyapunov;
pub mod corridor;
pub mod state;
pub mod objective;
pub mod solver;
pub mod runner;
pub mod region;
pub mod hydromower;
pub mod lawnbiofuel;
pub mod anchor;
pub mod eco_core;
