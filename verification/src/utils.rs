//! The request/response pipeline shared by every endpoint.

pub mod fetch;
