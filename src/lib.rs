//! A Linux container runtime's core: the lifecycle state and its document,
//! the decisions of `create`, the preparation of the root filesystem, and
//! the one-shot rendezvous the supervisor and the init process meet at.
use vstd::prelude::*;

pub mod create;
pub mod error;
pub mod ipc;
pub mod json;
pub mod layout;
pub mod process;
pub mod rootfs;
pub mod state;
pub mod text;

verus! {

} // verus!
