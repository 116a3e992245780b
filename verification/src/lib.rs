//! Supernova: the verified core of a signed-distance-field game engine.
//!
//! The `csg` module holds authored constructive-solid-geometry trees and
//! their flattening into a prefix-ordered GPU buffer.
pub mod application;
pub mod construct;
pub mod csg;
pub mod propellant;
