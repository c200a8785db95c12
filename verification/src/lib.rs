//! Request classification and proxy decisions for a reverse proxy in front of
//! GitHub-hosted resources.
//!
//! Every function here is pure: it takes plain values and returns plain
//! values. The surrounding runtime performs the network calls and hands their
//! results back.

pub mod classify;
pub mod identity;
pub mod normalize;
pub mod policy;
pub mod proxy;
pub mod respond;
pub mod route;
pub mod size_guard;
pub mod text;
