//! Typed models of the platform's partition and virtual-processor
//! definitions: capability and property selectors, register names and
//! values, run-exit information, and the platform's own failure codes.
//!
//! The platform hands these across its boundary as fixed-layout unions;
//! here each one is modelled as a plain tagged value, so that contracts
//! can speak about what a request carried and what an answer held.

use vstd::prelude::*;
use crate::common_defs::{HRESULT, UINT8, UINT16, UINT32, UINT64};

verus! {

/// Opaque token by which the platform identifies a partition.
pub type WHV_PARTITION_HANDLE = usize;

pub type WHV_GUEST_PHYSICAL_ADDRESS = UINT64;
pub type WHV_GUEST_VIRTUAL_ADDRESS = UINT64;

/// The request asked about an unknown capability (0x80370300).
pub const WHV_E_UNKNOWN_CAPABILITY: HRESULT = -2143878400;
/// The buffer handed to the platform was too small (0x80370301).
pub const WHV_E_INSUFFICIENT_BUFFER: HRESULT = -2143878399;
/// The request named an unknown partition property (0x80370302).
pub const WHV_E_UNKNOWN_PROPERTY: HRESULT = -2143878398;
/// The hypervisor does not support the requested configuration (0x80370303).
pub const WHV_E_UNSUPPORTED_HYPERVISOR_CONFIG: HRESULT = -2143878397;
/// The partition is not configured well enough for the request (0x80370304).
pub const WHV_E_INVALID_PARTITION_CONFIG: HRESULT = -2143878396;
/// No guest-physical range was found for the request (0x80370305).
pub const WHV_E_GPA_RANGE_NOT_FOUND: HRESULT = -2143878395;
/// A virtual processor with that index already exists (0x80370306).
pub const WHV_E_VP_ALREADY_EXISTS: HRESULT = -2143878394;
/// No virtual processor with that index exists (0x80370307).
pub const WHV_E_VP_DOES_NOT_EXIST: HRESULT = -2143878393;
/// The virtual processor is in the wrong state for the request (0x80370308).
pub const WHV_E_INVALID_VP_STATE: HRESULT = -2143878392;
/// The request named an unknown register (0x80370309).
pub const WHV_E_INVALID_VP_REGISTER_NAME: HRESULT = -2143878391;

/// Selects which capability of the platform a query asks about.
#[derive(Copy, Clone, Debug, PartialEq, Eq, Structural)]
pub enum WHV_CAPABILITY_CODE {
    WHvCapabilityCodeHypervisorPresent,
    WHvCapabilityCodeFeatures,
    WHvCapabilityCodeExtendedVmExits,
    WHvCapabilityCodeProcessorVendor,
    WHvCapabilityCodeProcessorFeatures,
}

/// A capability answer, tagged by the capability it describes.
#[derive(Copy, Clone, Debug, PartialEq, Eq, Structural)]
pub enum WHV_CAPABILITY {
    HypervisorPresent(bool),
    Features(UINT64),
    ExtendedVmExits(UINT64),
    ProcessorVendor(UINT32),
    ProcessorFeatures(UINT64),
}

/// Selects which partition property a request sets or reads.
#[derive(Copy, Clone, Debug, PartialEq, Eq, Structural)]
pub enum WHV_PARTITION_PROPERTY_CODE {
    WHvPartitionPropertyCodeExtendedVmExits,
    WHvPartitionPropertyCodeProcessorFeatures,
    WHvPartitionPropertyCodeProcessorClFlushSize,
    WHvPartitionPropertyCodeProcessorCount,
}

/// A partition property value, tagged by the property it configures.
#[derive(Copy, Clone, Debug, PartialEq, Eq, Structural)]
pub enum WHV_PARTITION_PROPERTY {
    ExtendedVmExits(UINT64),
    ProcessorFeatures(UINT64),
    ProcessorClFlushSize(UINT8),
    ProcessorCount(UINT32),
}

/// Names a virtual-processor register.
#[derive(Copy, Clone, Debug, PartialEq, Eq, Structural)]
pub enum WHV_REGISTER_NAME {
    WHvX64RegisterRax,
    WHvX64RegisterRcx,
    WHvX64RegisterRdx,
    WHvX64RegisterRbx,
    WHvX64RegisterRsp,
    WHvX64RegisterRbp,
    WHvX64RegisterRsi,
    WHvX64RegisterRdi,
    WHvX64RegisterR8,
    WHvX64RegisterR9,
    WHvX64RegisterRip,
    WHvX64RegisterRflags,
}

/// Holds the value of one register, as the platform's widest
/// general-purpose view of it.
#[derive(Copy, Clone, Debug, PartialEq, Eq, Structural)]
pub struct WHV_REGISTER_VALUE {
    pub Reg64: UINT64,
}

/// Says why a run of a virtual processor returned to its caller.
#[derive(Copy, Clone, Debug, PartialEq, Eq, Structural)]
pub enum WHV_RUN_VP_EXIT_REASON {
    WHvRunVpExitReasonNone,
    WHvRunVpExitReasonMemoryAccess,
    WHvRunVpExitReasonX64IoPortAccess,
    WHvRunVpExitReasonUnrecoverableException,
    WHvRunVpExitReasonInvalidVpRegisterValue,
    WHvRunVpExitReasonUnsupportedFeature,
    WHvRunVpExitReasonX64InterruptWindow,
    WHvRunVpExitReasonX64Halt,
    WHvRunVpExitReasonCanceled,
}

/// What the platform reports when a run of a virtual processor returns.
#[derive(Copy, Clone, Debug, PartialEq, Eq, Structural)]
pub struct WHV_RUN_VP_EXIT_CONTEXT {
    pub ExitReason: WHV_RUN_VP_EXIT_REASON,
}

} // verus!
