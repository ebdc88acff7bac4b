//! The core of a small picture frame: a slideshow that decides when which stored picture
//! goes to a low-resolution display, and a codec that turns any picture into the bytes
//! that the display takes.

pub mod api;
pub mod codec;
pub mod config;
pub mod environment;
pub mod graphql;
pub mod models;
pub mod svc;
pub mod text;
pub mod uuid;

pub use environment::get_env;
pub use environment::get_env_typed;
