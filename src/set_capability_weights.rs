use vstd::prelude::*;
use crate::accounts::{Registry, RegistryModel};
use crate::error::{AuthorizationError, RegistryError, SerializationError, StateError};
use crate::pubkey::Pubkey;
use crate::weights::CAPABILITY_COUNT;

verus! {

/// Whether `signer` may replace the weight vector with `weights`.
pub open spec fn check(registry: RegistryModel, signer: Pubkey, weights: Seq<u64>) -> Result<
    (),
    RegistryError,
> {
    if !registry.initialized {
        Err(RegistryError::State(StateError::RegistryNotInitialized))
    } else if signer != registry.authority {
        Err(RegistryError::Authorization(AuthorizationError::NotAuthority))
    } else if weights.len() != CAPABILITY_COUNT {
        Err(RegistryError::Serialization(SerializationError::WrongSerialization))
    } else {
        Ok(())
    }
}

/// The registry with its weight vector replaced wholesale. The new vector
/// is taken as given: the caller answers for its sum.
pub open spec fn apply(registry: RegistryModel, weights: Seq<u64>) -> RegistryModel {
    RegistryModel { capability_weights: weights, ..registry }
}

/// The outcome of the whole operation.
pub open spec fn outcome(registry: RegistryModel, signer: Pubkey, weights: Seq<u64>) -> Result<
    RegistryModel,
    RegistryError,
> {
    match check(registry, signer, weights) {
        Ok(_) => Ok(apply(registry, weights)),
        Err(e) => Err(e),
    }
}

pub fn access_control(registry: &Registry, signer: Pubkey, weights: &Vec<u64>) -> (r: Result<
    (),
    RegistryError,
>)
    ensures
        r == check(registry@, signer, weights@),
{
    if !registry.initialized {
        return Err(RegistryError::State(StateError::RegistryNotInitialized));
    }
    if signer != registry.authority {
        return Err(RegistryError::Authorization(AuthorizationError::NotAuthority));
    }
    if weights.len() != CAPABILITY_COUNT {
        return Err(RegistryError::Serialization(SerializationError::WrongSerialization));
    }
    Ok(())
}

pub fn state_transition(registry: &mut Registry, weights: Vec<u64>)
    ensures
        final(registry)@ == apply(old(registry)@, weights@),
{
    registry.capability_weights = weights;
}

/// Replaces every capability weight at once. Only the registry's
/// authority may do so. On failure the registry is left as it was.
pub fn handler(registry: &mut Registry, signer: Pubkey, weights: Vec<u64>) -> (r: Result<
    (),
    RegistryError,
>)
    requires
        old(registry).wf(),
    ensures
        final(registry).wf(),
        match check(old(registry)@, signer, weights@) {
            Ok(_) => r is Ok && final(registry)@ == apply(old(registry)@, weights@),
            Err(e) => r == Err::<(), RegistryError>(e) && final(registry)@ == old(registry)@,
        },
{
    match access_control(registry, signer, &weights) {
        Ok(_) => {},
        Err(e) => {
            return Err(e);
        },
    }
    state_transition(registry, weights);
    Ok(())
}

} // verus!
