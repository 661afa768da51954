//! Disciplined access to privileged, kernel-managed memory and system state.
//!
//! The hard core of this crate is a safe memory-access and introspection
//! layer: it turns a handful of raw, variable-length host primitives into a
//! protocol that classifies every outcome, bounds-checks every record walk,
//! and releases every transient resource on every path.  The host primitives
//! themselves (pool allocation, page locking and mapping, cross-address-space
//! copies, system-information queries) run outside this crate; each verified
//! routine here takes the host's responses as plain values and is proved
//! correct for every response the host could give.

pub mod allocator;
pub mod basedef;
pub mod kernel;
pub mod log;
pub mod ntstatus;
pub mod patch;
pub mod process;
pub mod query;
pub mod string;
pub mod util;
pub mod vsb;
pub mod walker;
