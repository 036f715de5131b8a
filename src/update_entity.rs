use vstd::prelude::*;
use crate::accounts::Entity;
use crate::error::{AuthorizationError, RegistryError, StateError};
use crate::pubkey::Pubkey;

verus! {

/// Only the leader of an existing entity may change its capabilities.
pub open spec fn check(entity: Entity, signer: Pubkey) -> Result<(), RegistryError> {
    if !entity.initialized {
        Err(RegistryError::State(StateError::EntityNotInitialized))
    } else if signer != entity.leader {
        Err(RegistryError::Authorization(AuthorizationError::NotLeader))
    } else {
        Ok(())
    }
}

/// The entity with its capability bitmap replaced; the stake kind and
/// everything else stay.
pub open spec fn apply(entity: Entity, capabilities: u32) -> Entity {
    Entity { capabilities, ..entity }
}

/// The outcome of the whole operation.
pub open spec fn outcome(entity: Entity, signer: Pubkey, capabilities: u32) -> Result<
    Entity,
    RegistryError,
> {
    match check(entity, signer) {
        Ok(_) => Ok(apply(entity, capabilities)),
        Err(e) => Err(e),
    }
}

pub fn access_control(entity: &Entity, signer: Pubkey) -> (r: Result<(), RegistryError>)
    ensures
        r == check(*entity, signer),
{
    if !entity.initialized {
        return Err(RegistryError::State(StateError::EntityNotInitialized));
    }
    if signer != entity.leader {
        return Err(RegistryError::Authorization(AuthorizationError::NotLeader));
    }
    Ok(())
}

pub fn state_transition(entity: &mut Entity, capabilities: u32)
    ensures
        *final(entity) == apply(*old(entity), capabilities),
{
    entity.capabilities = capabilities;
}

/// Overwrites the capability bitmap of an entity. On failure the record is
/// left as it was.
pub fn handler(entity: &mut Entity, signer: Pubkey, capabilities: u32) -> (r: Result<
    (),
    RegistryError,
>)
    ensures
        match check(*old(entity), signer) {
            Ok(_) => r is Ok && *final(entity) == apply(*old(entity), capabilities),
            Err(e) => r == Err::<(), RegistryError>(e) && *final(entity) == *old(entity),
        },
{
    match access_control(entity, signer) {
        Ok(_) => {},
        Err(e) => {
            return Err(e);
        },
    }
    state_transition(entity, capabilities);
    Ok(())
}

} // verus!
