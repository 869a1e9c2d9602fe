//! Inverse kinematics for the legs of a walking creature, and the gait rule
//! that decides when and where each foot is planted next.
//!
//! Positions and lengths are values of `bevy::math`. Their arithmetic is done
//! by that crate; this library states what it builds from that arithmetic and
//! proves that it builds exactly that.

pub mod vector;
pub mod rotations;
pub mod kin;
pub mod leg;
pub mod spider;
