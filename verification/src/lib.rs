//! CPU topology reporting and thread-affinity planning.
//!
//! The crate models the host's CPU topology from kernel-reported fields and
//! plans contiguous affinity masks for the calling thread. All range
//! normalization, mask construction, mask read-back and field parsing logic
//! is verified; the OS calls that read the kernel info source and apply a
//! mask are left to the embedding program.

pub mod numparse;
pub mod affinity;
pub mod topology;
pub mod verbosity;
