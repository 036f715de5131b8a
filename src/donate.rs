use vstd::prelude::*;
use crate::accounts::{Registry, RegistryModel};
use crate::error::{InvariantError, RegistryError, StateError};

verus! {

/// Whether a donation of `amount` into the reward vault may proceed.
pub open spec fn check(registry: RegistryModel, amount: u64) -> Result<(), RegistryError> {
    if !registry.initialized {
        Err(RegistryError::State(StateError::RegistryNotInitialized))
    } else if amount == 0 {
        Err(RegistryError::Invariant(InvariantError::ZeroAmount))
    } else {
        Ok(())
    }
}

/// Validates a donation. The transfer into the vault is the caller's; no
/// record of this library changes.
pub fn handler(registry: &Registry, amount: u64) -> (r: Result<(), RegistryError>)
    ensures
        r == check(registry@, amount),
{
    if !registry.initialized {
        return Err(RegistryError::State(StateError::RegistryNotInitialized));
    }
    if amount == 0 {
        return Err(RegistryError::Invariant(InvariantError::ZeroAmount));
    }
    Ok(())
}

} // verus!
