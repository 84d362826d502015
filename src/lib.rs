//! A small Markdown blog server: its configuration defaults, the content
//! store of rendered posts, the template engine and the routing decisions.
pub mod config;
pub mod posts;
pub mod routes;
pub mod templates;
pub mod text;
