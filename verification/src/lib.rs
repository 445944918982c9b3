//! Authentication core of a small student-record backend: bcrypt-backed
//! password hashing, an HS256 token codec with a claims data contract, the
//! login flow, and the request-authorization state machine that guards
//! protected routes.

pub mod auth;
pub mod claims;
pub mod clock;
pub mod codec;
pub mod config;
pub mod email;
pub mod middleware;
pub mod role;
pub mod student;
pub mod text;
pub mod user;
