//! The storage gateway, one module per resource.

pub mod animal;
