use vstd::prelude::*;
use crate::accounts::{Registry, RegistryModel};
use crate::error::{AuthorizationError, InvariantError, RegistryError, StateError};
use crate::pubkey::Pubkey;
use crate::weights::{normalize_weights, normalized, total_weight, CAPABILITY_COUNT};

verus! {

/// Whether `signer` may register `capability_weight` at `capability_id`.
pub open spec fn check(
    registry: RegistryModel,
    signer: Pubkey,
    capability_id: u8,
    capability_weight: u64,
) -> Result<(), RegistryError> {
    if !registry.initialized {
        Err(RegistryError::State(StateError::RegistryNotInitialized))
    } else if signer != registry.authority {
        Err(RegistryError::Authorization(AuthorizationError::NotAuthority))
    } else if capability_id >= CAPABILITY_COUNT {
        Err(RegistryError::Invariant(InvariantError::InvalidCapabilityId))
    } else if total_weight(registry.capability_weights, capability_weight) == 0 {
        Err(RegistryError::Invariant(InvariantError::ZeroTotalWeight))
    } else {
        Ok(())
    }
}

/// The registry after the registration: every held weight is divided by
/// the new total, then the slot receives the program and the weight as
/// given, replacing whatever it held.
pub open spec fn apply(
    registry: RegistryModel,
    capability_id: u8,
    capability_program: Pubkey,
    capability_weight: u64,
) -> RegistryModel {
    RegistryModel {
        capabilities: registry.capabilities.update(capability_id as int, capability_program),
        capability_weights: normalized(registry.capability_weights, capability_weight).update(
            capability_id as int,
            capability_weight,
        ),
        ..registry
    }
}

/// The outcome of the whole operation.
pub open spec fn outcome(
    registry: RegistryModel,
    signer: Pubkey,
    capability_id: u8,
    capability_program: Pubkey,
    capability_weight: u64,
) -> Result<RegistryModel, RegistryError> {
    match check(registry, signer, capability_id, capability_weight) {
        Ok(_) => Ok(apply(registry, capability_id, capability_program, capability_weight)),
        Err(e) => Err(e),
    }
}

pub fn access_control(
    registry: &Registry,
    signer: Pubkey,
    capability_id: u8,
    capability_weight: u64,
) -> (r: Result<(), RegistryError>)
    requires
        registry.wf(),
    ensures
        r == check(registry@, signer, capability_id, capability_weight),
{
    if !registry.initialized {
        return Err(RegistryError::State(StateError::RegistryNotInitialized));
    }
    if signer != registry.authority {
        return Err(RegistryError::Authorization(AuthorizationError::NotAuthority));
    }
    if capability_id as usize >= CAPABILITY_COUNT {
        return Err(RegistryError::Invariant(InvariantError::InvalidCapabilityId));
    }
    match normalize_weights(&registry.capability_weights, capability_weight) {
        Ok(_) => Ok(()),
        Err(e) => Err(e),
    }
}

pub fn state_transition(
    registry: &mut Registry,
    capability_id: u8,
    capability_program: Pubkey,
    capability_weight: u64,
)
    requires
        old(registry).wf(),
        capability_id < CAPABILITY_COUNT,
        total_weight(old(registry).capability_weights@, capability_weight) != 0,
    ensures
        final(registry).wf(),
        final(registry)@ == apply(old(registry)@, capability_id, capability_program, capability_weight),
{
    match normalize_weights(&registry.capability_weights, capability_weight) {
        Ok(w) => {
            registry.capability_weights = w;
        },
        Err(_) => {},
    }
    registry.capabilities[capability_id as usize] = capability_program;
    registry.capability_weights[capability_id as usize] = capability_weight;
}

/// Registers (or replaces) the program and weight of a capability.
/// Only the registry's authority may do so. On failure the registry is
/// left as it was.
pub fn handler(
    registry: &mut Registry,
    signer: Pubkey,
    capability_id: u8,
    capability_program: Pubkey,
    capability_weight: u64,
) -> (r: Result<(), RegistryError>)
    requires
        old(registry).wf(),
    ensures
        final(registry).wf(),
        match outcome(old(registry)@, signer, capability_id, capability_program, capability_weight) {
            Ok(m) => r is Ok && final(registry)@ == m,
            Err(e) => r == Err::<(), RegistryError>(e) && final(registry)@ == old(registry)@,
        },
{
    match access_control(registry, signer, capability_id, capability_weight) {
        Ok(_) => {},
        Err(e) => {
            return Err(e);
        },
    }
    state_transition(registry, capability_id, capability_program, capability_weight);
    Ok(())
}

} // verus!
