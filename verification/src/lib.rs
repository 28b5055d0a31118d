//! Enumerates a host's graphics accelerators and produces a normalized
//! profile of each device's identity, clocking, memory, compute
//! topology, cache hierarchy and estimated peak throughput.
//!
//! The probes are pure functions over gathered evidence — attribute
//! text from the kernel's device trees and captured tool output — and
//! the classification engine is a set of ordered, vendor-keyed rule
//! tables. An unverified shell gathers the evidence and renders the
//! profiles.

pub mod amd;
pub mod args;
pub mod common;
pub mod evidence;
pub mod intel;
pub mod manager;
pub mod nvidia;
pub mod pci;
pub mod strutil;
pub mod utils;
