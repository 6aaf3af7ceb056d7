//! Supervision of a single backend worker process and an HTTP bridge to it.
//!
//! The library holds the decisions: which launch candidates are tried and in
//! which order, the slot that tracks the one live worker, how a request is
//! planned and how a response becomes a result. Spawning, killing and the
//! network round trip are performed by the caller with the plain values the
//! library hands out.
use vstd::prelude::*;

pub mod text;
pub mod outside;
pub mod supervisor;
pub mod bridge;
pub mod routes;
