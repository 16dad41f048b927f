//! A safety-oriented layer over a host hypervisor's partition and
//! virtual-processor management interface.
//!
//! The host platform itself creates partitions, schedules virtual
//! processors and holds the register state; this library marshals typed
//! requests for it, translates its status codes into typed results, and
//! keeps a ghost record of what the platform has acknowledged, so that
//! callers can reason about the lifecycle of each partition and processor.
//! The raw calls into the platform live outside this library; every
//! function here is given the platform's answer as a plain value.

#![allow(non_camel_case_types)]
#![allow(non_snake_case)]

pub mod common_defs;
pub mod whp;
pub mod win_hv_emulation_defs;
pub mod win_hv_platform_defs;
