//! Discovers HTTP route handlers exported by JavaScript/TypeScript modules,
//! attaches their leading documentation comments, and renders the result as
//! JSON or as a static HTML listing.

pub mod model;
pub mod extract;
pub mod comments;
pub mod syntax;
pub mod parse;
pub mod html;
pub mod json;
pub mod logger;
