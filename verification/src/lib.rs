//! Verified command-dispatch and polling engine for a one-tab page-automation
//! session.
//!
//! The crate holds the pure, provable part of the tool: tokenizing command
//! lines and routing verbs, building the scripts and paths the session sends
//! out, slugging routes for screenshot names, the fixed-interval polling
//! primitive, and the change-detection ticker. The process around it (driver
//! handling, terminal, file I/O) lives outside and hands this crate plain
//! values.

pub mod dispatch;
pub mod errors;
pub mod info;
pub mod numbers;
pub mod poll;
pub mod scripts;
pub mod session;
pub mod shot;
pub mod slug;
pub mod text;
pub mod ticker;

use vstd::prelude::*;

verus! {

} // verus!
