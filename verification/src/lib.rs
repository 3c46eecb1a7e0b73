//! Decisions of a small local server that hands out a handful of static
//! assets and keeps one token in a file: which port text is acceptable, what
//! a request asks for, which token a save request carries, and what is
//! answered.

pub mod asset;
pub mod port;
pub mod request;
pub mod response;
pub mod server;
pub mod session;
pub mod setup;
pub mod text;
pub mod window;
