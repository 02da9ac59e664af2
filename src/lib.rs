//! Scaffolding engine: a project's folder taxonomy, the resolution of a
//! creation request against it, naming conventions and template rendering.

pub mod config;
pub mod creator;
pub mod engine;
pub mod feature;
pub mod generator;
pub mod lookup;
pub mod naming;
pub mod opts;
pub mod text;
