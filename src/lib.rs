//! A small 2D landing game core: a rocket under gravity and thrust that must
//! come to rest on a fixed platform before its fuel runs out.
//!
//! Every quantity is an exact fixed-point integer (see [`geometry`] for the
//! units), so each simulation step is plain integer arithmetic whose results
//! the contracts state exactly. [`decimal`] reads the startup parameters
//! into those units.
pub mod geometry;
pub mod rocket;
pub mod decimal;
pub mod game;
pub mod laws;
