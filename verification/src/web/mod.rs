//! What the HTTP interface decides and shapes, apart from the server itself.

pub mod article_import;
pub mod dtos;
pub mod error;
pub mod guards;
pub mod handlers;
pub mod helpers;
pub mod rate_limiter;
