//! Core of an interactive electrostatics toy: point charges move under
//! mutual Coulomb-like forces inside a bounded arena, and the resulting
//! field is sampled onto a regular grid for display.
//!
//! All world quantities (charge magnitudes, positions, velocities, field
//! samples) are fixed-point numbers over `i64`, so every operation has an
//! exact integer meaning that the contracts state in full.

pub mod charge;
pub mod charge_editor;
pub mod controls;
pub mod fixed;
pub mod icons;
pub mod laws;
pub mod setting;
pub mod system;
pub mod ui_elements;
pub mod vec2;
pub mod vector_field;
