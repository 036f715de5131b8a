use vstd::prelude::*;
use crate::accounts::{Entity, Registry, RegistryModel, Stake};
use crate::error::{AuthorizationError, RegistryError, StateError};
use crate::pubkey::Pubkey;

verus! {

/// Whether the beneficiary of a stake may collect its rewards.
pub open spec fn check(
    registry: RegistryModel,
    entity: Entity,
    stake: Stake,
    entity_id: Pubkey,
    signer: Pubkey,
) -> Result<(), RegistryError> {
    if !registry.initialized {
        Err(RegistryError::State(StateError::RegistryNotInitialized))
    } else if !stake.initialized {
        Err(RegistryError::State(StateError::StakeNotInitialized))
    } else if signer != stake.beneficiary {
        Err(RegistryError::Authorization(AuthorizationError::NotBeneficiary))
    } else if stake.entity_id != entity_id {
        Err(RegistryError::State(StateError::StakeMismatch))
    } else if !entity.initialized {
        Err(RegistryError::State(StateError::EntityNotInitialized))
    } else {
        Ok(())
    }
}

pub fn access_control(
    registry: &Registry,
    entity: &Entity,
    stake: &Stake,
    entity_id: Pubkey,
    signer: Pubkey,
) -> (r: Result<(), RegistryError>)
    ensures
        r == check(registry@, *entity, *stake, entity_id, signer),
{
    if !registry.initialized {
        return Err(RegistryError::State(StateError::RegistryNotInitialized));
    }
    if !stake.initialized {
        return Err(RegistryError::State(StateError::StakeNotInitialized));
    }
    if signer != stake.beneficiary {
        return Err(RegistryError::Authorization(AuthorizationError::NotBeneficiary));
    }
    if stake.entity_id != entity_id {
        return Err(RegistryError::State(StateError::StakeMismatch));
    }
    if !entity.initialized {
        return Err(RegistryError::State(StateError::EntityNotInitialized));
    }
    Ok(())
}

/// Reward collection. The reward computation belongs to the capability
/// programs and is not part of this library: the request is validated and
/// no record changes.
pub fn handler(
    registry: &Registry,
    entity: &Entity,
    stake: &Stake,
    entity_id: Pubkey,
    signer: Pubkey,
) -> (r: Result<(), RegistryError>)
    ensures
        r == check(registry@, *entity, *stake, entity_id, signer),
{
    access_control(registry, entity, stake, entity_id, signer)
}

} // verus!
