//! A staged image-compression pipeline: resolving output and temporary paths
//! from a profile, sniffing the true image type, driving the compression
//! engine, enforcing a minimum-savings policy, and planning the atomic commit
//! of the staged result.

pub mod codec;
pub mod paths;
pub mod pipeline;
pub mod settings;
pub mod types;
