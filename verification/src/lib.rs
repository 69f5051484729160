//! Inline function hooking for x86 and x86-64.
//!
//! A hook overwrites the first bytes of a function with a jump to other
//! code. This crate decides what has to happen to memory and in which
//! order; it never touches memory itself. Every operation is a short
//! conversation: the hook names the next [`Action`], the caller performs it
//! on the real address space and hands back the [`Reply`].
//!
//! ```text
//! let mut hook = Hook::hook(source, destination, length)?;
//! while let Some(action) = hook.pending() {
//!     hook.resume(perform(action))?;
//! }
//! ```
//!
//! The caller has to make sure that no thread executes inside the patch
//! region while a hook is installed or removed, and that no two operations
//! on one hook run at the same time.

pub mod error;
pub mod hook;
pub mod jump;
pub mod laws;
pub mod platform;
pub mod trampoline;

pub use error::Error;
pub use hook::{Hook, Stage};
pub use platform::{Action, Protection, Reply};
pub use trampoline::{TrampolineHook, TrampolineStage};
