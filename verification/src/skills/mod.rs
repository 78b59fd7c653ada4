//! Skills: reusable capabilities discovered through experience.

pub mod registry;
