//! Decision logic for deriving a confined clone of an SELinux domain.
//!
//! The policy graph itself lives in a policy store outside this crate. What is
//! here decides what is asked of that store and in which order, how each
//! access-vector rule is mirrored onto the clone, and how the finished policy
//! is put on disk. Every function is verified against its contract.

pub mod cli;
pub mod error;
pub mod names;
pub mod pipeline;
pub mod remap;
pub mod run_laws;
pub mod writer;
