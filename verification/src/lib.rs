//! FUSE userspace library: the verified core.
//!
//! The modules hold the decisions and encodings a FUSE session makes: which kernel
//! requests are served, how the kernel connection is configured, how replies and
//! directory listings are laid out, and the containers that hand data back to the
//! kernel.

pub mod abi;
pub mod byte_box;
pub mod callback;
pub mod container;
pub mod data;
pub mod dirent;
pub mod dispatch;
pub mod event_loop;
pub mod filesystem;
pub mod notify;
pub mod passthrough;
pub mod poll;
pub mod queue;
pub mod reply;
pub mod request;
pub mod session;
pub mod time;

pub use session::{SessionACL, SessionState};
