//! A verified client-side driver for a small GitHub git-data workflow:
//! resolve the head of a base branch, create a fresh branch ref from it,
//! build a tree, create a commit, fast-forward the ref, and open a pull
//! request. The library plans every HTTP request (method, URL, JSON body,
//! timeout) and interprets every response; the caller only moves bytes.

pub mod error;
pub mod laws;
pub mod request;
pub mod schema;
pub mod status;
pub mod workflow;
