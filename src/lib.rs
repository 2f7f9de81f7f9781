//! Parallel checkouts ("spaces") of remote repositories: the selection
//! wizard, the fuzzy filter it narrows candidates with, and the logic that
//! turns a finished selection into a destination path and a sequence of
//! version-control operations.

pub mod config;
pub mod error;
pub mod text;
pub mod filter;
pub mod layout;
pub mod clone;
pub mod new;
pub mod purge;
pub mod remote;
