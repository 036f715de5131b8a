use vstd::prelude::*;
use crate::accounts::{Entity, StakeKind};
use crate::error::{AuthorizationError, RegistryError, StateError};
use crate::pubkey::Pubkey;

verus! {

/// The leader must sign for its own entity, and the slot must be free.
pub open spec fn check(entity: Entity, signer: Pubkey, leader: Pubkey) -> Result<(), RegistryError> {
    if signer != leader {
        Err(RegistryError::Authorization(AuthorizationError::NotLeader))
    } else if entity.initialized {
        Err(RegistryError::State(StateError::AlreadyInitialized))
    } else {
        Ok(())
    }
}

/// A new entity with nothing staked.
pub open spec fn apply(leader: Pubkey, capabilities: u32, stake_kind: StakeKind) -> Entity {
    Entity { leader, initialized: true, amount: 0, mega_amount: 0, capabilities, stake_kind }
}

/// The outcome of the whole operation.
pub open spec fn outcome(
    entity: Entity,
    signer: Pubkey,
    leader: Pubkey,
    capabilities: u32,
    stake_kind: StakeKind,
) -> Result<Entity, RegistryError> {
    match check(entity, signer, leader) {
        Ok(_) => Ok(apply(leader, capabilities, stake_kind)),
        Err(e) => Err(e),
    }
}

pub fn access_control(entity: &Entity, signer: Pubkey, leader: Pubkey) -> (r: Result<
    (),
    RegistryError,
>)
    ensures
        r == check(*entity, signer, leader),
{
    if signer != leader {
        return Err(RegistryError::Authorization(AuthorizationError::NotLeader));
    }
    if entity.initialized {
        return Err(RegistryError::State(StateError::AlreadyInitialized));
    }
    Ok(())
}

pub fn state_transition(
    entity: &mut Entity,
    leader: Pubkey,
    capabilities: u32,
    stake_kind: StakeKind,
)
    ensures
        *final(entity) == apply(leader, capabilities, stake_kind),
{
    *entity = Entity {
        leader,
        initialized: true,
        amount: 0,
        mega_amount: 0,
        capabilities,
        stake_kind,
    };
}

/// Registers a new entity led by `leader`. On failure the record is left
/// as it was.
pub fn handler(
    entity: &mut Entity,
    signer: Pubkey,
    leader: Pubkey,
    capabilities: u32,
    stake_kind: StakeKind,
) -> (r: Result<(), RegistryError>)
    ensures
        match check(*old(entity), signer, leader) {
            Ok(_) => r is Ok && *final(entity) == apply(leader, capabilities, stake_kind),
            Err(e) => r == Err::<(), RegistryError>(e) && *final(entity) == *old(entity),
        },
{
    match access_control(entity, signer, leader) {
        Ok(_) => {},
        Err(e) => {
            return Err(e);
        },
    }
    state_transition(entity, leader, capabilities, stake_kind);
    Ok(())
}

} // verus!
