//! Store hooks that keep a document store versioned in a git repository,
//! together with the mail linker, the annotation naming and the entry
//! creation rules that surround them.
//!
//! Every function here carries a contract that Verus proves. The few that
//! call into `toml`, `uuid` or `std` where it has no specification say in
//! their documentation what they take on trust. Work that touches the disk
//! or a repository is requested through plain values: the library decides,
//! the caller acts and reports back.

pub mod diagnostics;
pub mod error;
pub mod hook;
pub mod config;
pub mod vcs;
pub mod store_unload;
pub mod unload_run;
pub mod mail;
pub mod linker;
pub mod cache;
pub mod annotation;
pub mod create;
pub mod pipeline;
