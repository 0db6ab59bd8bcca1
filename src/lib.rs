//! Patch listings for an interactive-fiction interpreter: the patch model,
//! the batch-wide length check, and the runtime and compile-time renderers.
pub mod laws;
pub mod model;
pub mod pipeline;
pub mod render;
pub mod text;
pub mod validate;
