//! Fullwidth text rendering and the decisions around placing the result on
//! the system clipboard.

pub mod fullwidth;
pub mod lifetime;
pub mod settings;
