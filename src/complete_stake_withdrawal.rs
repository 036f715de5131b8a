use vstd::prelude::*;
use crate::accounts::{Entity, PendingWithdrawal, Registry, RegistryModel, Stake};
use crate::error::{AuthorizationError, InvariantError, RegistryError, StateError, TimelockError};
use crate::pubkey::Pubkey;

verus! {

/// Whether the denomination flags name exactly the denominations reserved.
pub open spec fn flags_match(p: PendingWithdrawal, is_token: bool, is_mega: bool) -> bool {
    is_token == (p.amount > 0) && is_mega == (p.mega_amount > 0)
}

/// Whether both records hold the reserved amounts.
pub open spec fn covers(entity: Entity, stake: Stake, p: PendingWithdrawal) -> bool {
    &&& p.amount <= stake.amount
    &&& p.mega_amount <= stake.mega_amount
    &&& p.amount <= entity.amount
    &&& p.mega_amount <= entity.mega_amount
}

/// Whether the pending withdrawal of a stake may be completed at `now`.
pub open spec fn check(
    registry: RegistryModel,
    entity: Entity,
    stake: Stake,
    entity_id: Pubkey,
    signer: Pubkey,
    is_token: bool,
    is_mega: bool,
    now: u64,
) -> Result<(), RegistryError> {
    if !registry.initialized {
        Err(RegistryError::State(StateError::RegistryNotInitialized))
    } else if !stake.initialized {
        Err(RegistryError::State(StateError::StakeNotInitialized))
    } else if signer != stake.beneficiary {
        Err(RegistryError::Authorization(AuthorizationError::NotBeneficiary))
    } else if stake.entity_id != entity_id {
        Err(RegistryError::State(StateError::StakeMismatch))
    } else if !entity.initialized {
        Err(RegistryError::State(StateError::EntityNotInitialized))
    } else {
        match stake.pending_withdrawal {
            None => Err(RegistryError::State(StateError::NoPendingWithdrawal)),
            Some(p) => if now < p.release_timestamp {
                Err(RegistryError::Timelock(TimelockError::WithdrawalLocked))
            } else if !flags_match(p, is_token, is_mega) {
                Err(RegistryError::Invariant(InvariantError::DenominationMismatch))
            } else if !covers(entity, stake, p) {
                Err(RegistryError::Invariant(InvariantError::AmountExceedsBalance))
            } else {
                Ok(())
            },
        }
    }
}

/// Both records debited by the reservation, and the stake back to idle.
pub open spec fn apply(entity: Entity, stake: Stake, p: PendingWithdrawal) -> (Entity, Stake) {
    (
        Entity {
            amount: (entity.amount - p.amount) as u64,
            mega_amount: (entity.mega_amount - p.mega_amount) as u64,
            ..entity
        },
        Stake {
            amount: (stake.amount - p.amount) as u64,
            mega_amount: (stake.mega_amount - p.mega_amount) as u64,
            pending_withdrawal: None,
            ..stake
        },
    )
}

/// The outcome of the whole operation: the records after it and the
/// released amounts.
pub open spec fn outcome(
    registry: RegistryModel,
    entity: Entity,
    stake: Stake,
    entity_id: Pubkey,
    signer: Pubkey,
    is_token: bool,
    is_mega: bool,
    now: u64,
) -> Result<(Entity, Stake, PendingWithdrawal), RegistryError> {
    match check(registry, entity, stake, entity_id, signer, is_token, is_mega, now) {
        Ok(_) => {
            let p = stake.pending_withdrawal->0;
            let (e, s) = apply(entity, stake, p);
            Ok((e, s, p))
        },
        Err(e) => Err(e),
    }
}

pub fn access_control(
    registry: &Registry,
    entity: &Entity,
    stake: &Stake,
    entity_id: Pubkey,
    signer: Pubkey,
    is_token: bool,
    is_mega: bool,
    now: u64,
) -> (r: Result<(), RegistryError>)
    ensures
        r == check(registry@, *entity, *stake, entity_id, signer, is_token, is_mega, now),
{
    if !registry.initialized {
        return Err(RegistryError::State(StateError::RegistryNotInitialized));
    }
    if !stake.initialized {
        return Err(RegistryError::State(StateError::StakeNotInitialized));
    }
    if signer != stake.beneficiary {
        return Err(RegistryError::Authorization(AuthorizationError::NotBeneficiary));
    }
    if stake.entity_id != entity_id {
        return Err(RegistryError::State(StateError::StakeMismatch));
    }
    if !entity.initialized {
        return Err(RegistryError::State(StateError::EntityNotInitialized));
    }
    match stake.pending_withdrawal {
        None => Err(RegistryError::State(StateError::NoPendingWithdrawal)),
        Some(p) => {
            if now < p.release_timestamp {
                return Err(RegistryError::Timelock(TimelockError::WithdrawalLocked));
            }
            if is_token != (p.amount > 0) || is_mega != (p.mega_amount > 0) {
                return Err(RegistryError::Invariant(InvariantError::DenominationMismatch));
            }
            if p.amount > stake.amount || p.mega_amount > stake.mega_amount || p.amount
                > entity.amount || p.mega_amount > entity.mega_amount {
                return Err(RegistryError::Invariant(InvariantError::AmountExceedsBalance));
            }
            Ok(())
        },
    }
}

pub fn state_transition(entity: &mut Entity, stake: &mut Stake, p: PendingWithdrawal)
    requires
        covers(*old(entity), *old(stake), p),
    ensures
        (*final(entity), *final(stake)) == apply(*old(entity), *old(stake), p),
{
    entity.amount = entity.amount - p.amount;
    entity.mega_amount = entity.mega_amount - p.mega_amount;
    stake.amount = stake.amount - p.amount;
    stake.mega_amount = stake.mega_amount - p.mega_amount;
    stake.pending_withdrawal = None;
}

/// Completes a pending withdrawal once its release time has come: debits
/// the reserved amounts from the stake and the entity's pool and returns
/// them, for the caller to release from the vault in the same atomic unit.
/// On failure both records are left as they were.
pub fn handler(
    registry: &Registry,
    entity: &mut Entity,
    stake: &mut Stake,
    entity_id: Pubkey,
    signer: Pubkey,
    is_token: bool,
    is_mega: bool,
    now: u64,
) -> (r: Result<PendingWithdrawal, RegistryError>)
    ensures
        match outcome(registry@, *old(entity), *old(stake), entity_id, signer, is_token, is_mega, now) {
            Ok((e, s, p)) => r == Ok::<PendingWithdrawal, RegistryError>(p) && *final(entity) == e
                && *final(stake) == s,
            Err(err) => r == Err::<PendingWithdrawal, RegistryError>(err) && *final(entity)
                == *old(entity) && *final(stake) == *old(stake),
        },
{
    match access_control(registry, entity, stake, entity_id, signer, is_token, is_mega, now) {
        Ok(_) => {},
        Err(e) => {
            return Err(e);
        },
    }
    match stake.pending_withdrawal {
        Some(p) => {
            state_transition(entity, stake, p);
            Ok(p)
        },
        None => Err(RegistryError::State(StateError::NoPendingWithdrawal)),
    }
}

} // verus!
