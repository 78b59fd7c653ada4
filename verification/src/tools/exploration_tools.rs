//! The exploration tools in their earlier form.

pub mod definitions;
