//! A small user registry served over HTTP: create a user (issuing a token),
//! delete it with that token, and list the registered emails. The library holds
//! the registry's rules, the text of each response, and the decision of the
//! per-request connection guard.

pub mod guard;
pub mod laws;
pub mod render;
pub mod repo;
pub mod user;
