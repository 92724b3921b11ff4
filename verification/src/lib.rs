//! The decisions of an identity gateway: who may call what, what is asked of
//! the services behind it, and how each request is answered.

pub mod authorize;
pub mod clients;
pub mod codec;
pub mod config;
pub mod docs;
pub mod error;
pub mod handlers;
pub mod headers;
pub mod json;
pub mod messages;
pub mod metadata;
pub mod middleware;
pub mod oidc;
pub mod pages;
pub mod ratelimit;
pub mod reply;
pub mod router;
pub mod session;
pub mod text;
