//! The resource controllers, one module per resource.

pub mod animal;
