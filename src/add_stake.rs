use vstd::prelude::*;
use crate::accounts::{Entity, Registry, RegistryModel, Stake};
use crate::error::{InvariantError, RegistryError, StateError};
use crate::pubkey::Pubkey;
use crate::stake::{credit, credit_fits, credit_records};

verus! {

/// Whether `amount` more may be deposited into an existing stake with the
/// entity at `entity_id`.
pub open spec fn check(
    registry: RegistryModel,
    entity: Entity,
    stake: Stake,
    entity_id: Pubkey,
    amount: u64,
) -> Result<(), RegistryError> {
    if !stake.initialized {
        Err(RegistryError::State(StateError::StakeNotInitialized))
    } else if !registry.initialized {
        Err(RegistryError::State(StateError::RegistryNotInitialized))
    } else if amount == 0 {
        Err(RegistryError::Invariant(InvariantError::ZeroAmount))
    } else if !entity.initialized {
        Err(RegistryError::State(StateError::EntityNotInitialized))
    } else if stake.entity_id != entity_id {
        Err(RegistryError::State(StateError::StakeMismatch))
    } else if !credit_fits(entity, stake, amount, false) {
        Err(RegistryError::Invariant(InvariantError::Overflow))
    } else {
        Ok(())
    }
}

/// The outcome of the whole operation: the primary denomination of the
/// entity's pool and of the stake grow by `amount`.
pub open spec fn outcome(
    registry: RegistryModel,
    entity: Entity,
    stake: Stake,
    entity_id: Pubkey,
    amount: u64,
) -> Result<(Entity, Stake), RegistryError> {
    match check(registry, entity, stake, entity_id, amount) {
        Ok(_) => Ok(credit(entity, stake, amount, false)),
        Err(e) => Err(e),
    }
}

pub fn access_control(
    registry: &Registry,
    entity: &Entity,
    stake: &Stake,
    entity_id: Pubkey,
    amount: u64,
) -> (r: Result<(), RegistryError>)
    ensures
        r == check(registry@, *entity, *stake, entity_id, amount),
{
    if !stake.initialized {
        return Err(RegistryError::State(StateError::StakeNotInitialized));
    }
    if !registry.initialized {
        return Err(RegistryError::State(StateError::RegistryNotInitialized));
    }
    if amount == 0 {
        return Err(RegistryError::Invariant(InvariantError::ZeroAmount));
    }
    if !entity.initialized {
        return Err(RegistryError::State(StateError::EntityNotInitialized));
    }
    if stake.entity_id != entity_id {
        return Err(RegistryError::State(StateError::StakeMismatch));
    }
    if amount > u64::MAX - stake.amount || amount > u64::MAX - entity.amount {
        return Err(RegistryError::Invariant(InvariantError::Overflow));
    }
    Ok(())
}

/// Deposits `amount` more into an existing stake. The matching transfer
/// into the vault is the caller's, in the same atomic unit. On failure
/// both records are left as they were.
pub fn handler(
    registry: &Registry,
    entity: &mut Entity,
    stake: &mut Stake,
    entity_id: Pubkey,
    amount: u64,
) -> (r: Result<(), RegistryError>)
    ensures
        match outcome(registry@, *old(entity), *old(stake), entity_id, amount) {
            Ok((e, s)) => r is Ok && *final(entity) == e && *final(stake) == s,
            Err(err) => r == Err::<(), RegistryError>(err) && *final(entity) == *old(entity)
                && *final(stake) == *old(stake),
        },
{
    match access_control(registry, entity, stake, entity_id, amount) {
        Ok(_) => {},
        Err(e) => {
            return Err(e);
        },
    }
    credit_records(entity, stake, amount, false);
    Ok(())
}

} // verus!
