//! Incremental build orchestration for a three-stage application bundle.
//!
//! The library holds the decision logic of the build tool: staleness
//! detection over recorded stamps, planning of the stage commands, the
//! coordinator that finalizes concurrent stages in registration order,
//! bundle assembly planning with mirror-copy semantics, and the pure
//! pixel transform behind the icon pipeline. All filesystem state is
//! handed in as plain values; the binary around the library performs
//! the reads, process launches and writes that the plans describe.

pub mod bundle;
pub mod config;
pub mod coordinator;
pub mod errors;
pub mod fstree;
pub mod icon;
pub mod layout;
pub mod mirror;
pub mod pipeline;
pub mod staleness;
