//! Planning layer for assembling a container's root filesystem.
//!
//! Every operation of this crate is a pure function from what has been observed
//! so far to the next request to make of the operating system, or to the final
//! result. A driver outside this crate performs the requests and appends each
//! reply to the history it hands back on the next call.
//!
//! - [`ops`]: the requests, the replies and the step type.
//! - [`dirs`], [`links`], [`copy`]: directories, symlinks and shallow copies.
//! - [`lock`]: the exclusive advisory lock.
//! - [`digest`]: the content hasher.
//! - [`tar`]: extraction of archives, whole or one subtree.
//! - [`cmd`], [`gem`], [`pack`]: finding commands, installing gems, packing
//!   images.
//! - [`path`], [`text`], [`pattern`], [`error`]: paths, texts, regular
//!   expressions and failures.

pub mod error;
pub mod text;
pub mod path;
pub mod pattern;
pub mod ops;
pub mod dirs;
pub mod links;
pub mod copy;
pub mod lock;
pub mod digest;
pub mod tar;
pub mod cmd;
pub mod gem;
pub mod pack;
