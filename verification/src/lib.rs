//! Scaffolding library for front-end projects: a layered configuration
//! model (common base plus per-framework overrides), a JSON-like document
//! type with deterministic deep-merge, a renderer from configuration
//! values to bundler-module source text, path-alias resolution, and the
//! file plan that materializes a new project directory.
pub mod bridge;
pub mod commands;
pub mod helpers;
pub mod json;
pub mod project;
pub mod project_aliases;
pub mod project_config;
pub mod render;
pub mod templates;
pub mod text;
pub mod transform;
pub mod types;
pub mod webpack;
