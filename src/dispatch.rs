use vstd::prelude::*;

use crate::auth::{resolve_auth_mode, AuthMode, RecordingInvocationAuthMode};
use crate::error::{OperationType, PreflightError};

verus! {

/// What the footprint path reads of a decoded operation body.
#[derive(Clone, Copy, Debug, PartialEq, Eq, Structural)]
pub enum OperationBody {
    ExtendFootprintTtl { extend_to: u32 },
    RestoreFootprint,
    Other(OperationType),
}

impl OperationBody {
    /// A body of another kind never carries one of the two footprint kinds.
    pub open spec fn wf(self) -> bool {
        match self {
            OperationBody::Other(t) => t != OperationType::ExtendFootprintTtl && t
                != OperationType::RestoreFootprint,
            _ => true,
        }
    }

    pub fn is_wf(&self) -> (r: bool)
        ensures
            r == self.wf(),
    {
        match self {
            OperationBody::Other(OperationType::ExtendFootprintTtl) => false,
            OperationBody::Other(OperationType::RestoreFootprint) => false,
            _ => true,
        }
    }

    pub open spec fn spec_discriminant(self) -> OperationType {
        match self {
            OperationBody::ExtendFootprintTtl { .. } => OperationType::ExtendFootprintTtl,
            OperationBody::RestoreFootprint => OperationType::RestoreFootprint,
            OperationBody::Other(t) => t,
        }
    }

    /// The kind of the operation.
    pub fn discriminant(&self) -> (r: OperationType)
        ensures
            r == self.spec_discriminant(),
    {
        match self {
            OperationBody::ExtendFootprintTtl { .. } => OperationType::ExtendFootprintTtl,
            OperationBody::RestoreFootprint => OperationType::RestoreFootprint,
            OperationBody::Other(t) => *t,
        }
    }
}

/// The keys an operation declares it reads only and reads and writes.
#[derive(Debug)]
pub struct LedgerFootprint<K> {
    pub read_only: Vec<K>,
    pub read_write: Vec<K>,
}

/// The simulation a footprint operation asks for, with the keys it covers.
#[derive(Debug)]
pub enum FootprintTtlPlan<K> {
    Extend { keys_to_extend: Vec<K>, extend_to: u32 },
    Restore { keys_to_restore: Vec<K> },
}

/// Picks the simulation for the footprint path: an extension covers the
/// read-only keys, a restoration the read-write keys; any other operation is
/// rejected, naming the kind it got.
pub fn preflight_footprint_ttl_op<K>(op_body: OperationBody, footprint: LedgerFootprint<K>) -> (r:
    Result<FootprintTtlPlan<K>, PreflightError>)
    requires
        op_body.wf(),
    ensures
        match op_body {
            OperationBody::ExtendFootprintTtl { extend_to } => r matches Ok(
                FootprintTtlPlan::Extend { keys_to_extend, extend_to: e },
            ) && keys_to_extend@ == footprint.read_only@ && e == extend_to,
            OperationBody::RestoreFootprint => r matches Ok(
                FootprintTtlPlan::Restore { keys_to_restore },
            ) && keys_to_restore@ == footprint.read_write@,
            OperationBody::Other(t) => r matches Err(e) && e == PreflightError::UnsupportedOperation(
                t,
            ),
        },
{
    let LedgerFootprint { read_only, read_write } = footprint;
    match op_body {
        OperationBody::ExtendFootprintTtl { extend_to } => Ok(
            FootprintTtlPlan::Extend { keys_to_extend: read_only, extend_to },
        ),
        OperationBody::RestoreFootprint => Ok(FootprintTtlPlan::Restore { keys_to_restore: read_write }),
        OperationBody::Other(_) => Err(PreflightError::UnsupportedOperation(op_body.discriminant())),
    }
}

/// The caller's resource settings for an invocation.
#[derive(Clone, Copy, Debug, PartialEq, Eq, Structural)]
pub struct CResourceConfig {
    pub instruction_leeway: u64,
}

/// The instruction additive factor once the leeway is folded in: the larger
/// of the two, so the leeway only ever widens it.
pub open spec fn widened_additive_factor(default_additive_factor: u32, leeway: u32) -> u32 {
    if leeway > default_additive_factor {
        leeway
    } else {
        default_additive_factor
    }
}

/// Folds the caller's instruction leeway into the default additive factor;
/// a leeway that does not fit in 32 bits is rejected.
pub fn instruction_additive_factor(default_additive_factor: u32, resource_config: CResourceConfig) -> (r:
    Result<u32, PreflightError>)
    ensures
        resource_config.instruction_leeway <= u32::MAX ==> r == Ok::<u32, PreflightError>(
            widened_additive_factor(
                default_additive_factor,
                resource_config.instruction_leeway as u32,
            ),
        ),
        resource_config.instruction_leeway > u32::MAX ==> r == Err::<u32, PreflightError>(
            PreflightError::LeewayOutOfRange(resource_config.instruction_leeway),
        ),
{
    if resource_config.instruction_leeway > u32::MAX as u64 {
        return Err(PreflightError::LeewayOutOfRange(resource_config.instruction_leeway));
    }
    let instruction_leeway = resource_config.instruction_leeway as u32;
    if instruction_leeway > default_additive_factor {
        Ok(instruction_leeway)
    } else {
        Ok(default_additive_factor)
    }
}

/// Everything an invocation's simulation needs that this library decides.
#[derive(Debug)]
pub struct InvokeSetup {
    pub instruction_additive_factor: u32,
    pub auth_mode: RecordingInvocationAuthMode,
    pub seed: [u8; 32],
}

/// Prepares an invocation: the widened instruction additive factor, the
/// engine's authorization policy for the supplied entries, and the given seed.
pub fn prepare_invoke_hf_op(
    default_additive_factor: u32,
    resource_config: CResourceConfig,
    auth_mode: AuthMode,
    auth_entries: Vec<Vec<u8>>,
    seed: [u8; 32],
) -> (r: Result<InvokeSetup, PreflightError>)
    ensures
        resource_config.instruction_leeway > u32::MAX ==> r == Err::<InvokeSetup, PreflightError>(
            PreflightError::LeewayOutOfRange(resource_config.instruction_leeway),
        ),
        resource_config.instruction_leeway <= u32::MAX ==> (r matches Ok(s) && s.seed == seed
            && s.instruction_additive_factor == widened_additive_factor(
            default_additive_factor,
            resource_config.instruction_leeway as u32,
        ) && match auth_mode {
            AuthMode::Enforce => s.auth_mode matches RecordingInvocationAuthMode::Enforcing(v)
                && v@ == auth_entries@,
            AuthMode::Record => s.auth_mode == RecordingInvocationAuthMode::Recording(true),
            AuthMode::RecordAllowNonroot => s.auth_mode == RecordingInvocationAuthMode::Recording(
                false,
            ),
        }),
{
    let instruction_additive_factor = match instruction_additive_factor(
        default_additive_factor,
        resource_config,
    ) {
        Ok(f) => f,
        Err(e) => {
            return Err(e);
        },
    };
    let auth_mode = resolve_auth_mode(auth_mode, auth_entries);
    Ok(InvokeSetup { instruction_additive_factor, auth_mode, seed })
}

} // verus!
