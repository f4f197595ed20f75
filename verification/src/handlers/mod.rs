//! The request flows, one module per resource.

pub mod auth;
pub mod blocks;
pub mod columns;
pub mod plans;
