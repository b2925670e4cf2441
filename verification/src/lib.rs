//! Resource-governance and configuration-translation utilities for a storage
//! engine embedded in a distributed database node.
//!
//! The crate answers two questions: how much CPU and memory the process may
//! actually use (combining host totals, container cgroup limits and an
//! operator override), and how human-readable configuration values map,
//! bit-exactly, onto the storage engine's native tuning enumerations.

pub mod blob;
pub mod cache;
pub mod codec;
pub mod compression;
pub mod enums;
pub mod memory;
pub mod priority;
pub mod quota;
pub mod text;
