use vstd::prelude::*;
use crate::accounts::{PendingWithdrawal, Registry, RegistryModel, Stake};
use crate::error::{AuthorizationError, InvariantError, RegistryError, StateError};
use crate::pubkey::Pubkey;

verus! {

/// Whether the beneficiary may reserve `amount` and `mega_amount` of an
/// idle stake for withdrawal at time `now`.
pub open spec fn check(
    registry: RegistryModel,
    stake: Stake,
    entity_id: Pubkey,
    signer: Pubkey,
    amount: u64,
    mega_amount: u64,
    now: u64,
) -> Result<(), RegistryError> {
    if !registry.initialized {
        Err(RegistryError::State(StateError::RegistryNotInitialized))
    } else if !stake.initialized {
        Err(RegistryError::State(StateError::StakeNotInitialized))
    } else if signer != stake.beneficiary {
        Err(RegistryError::Authorization(AuthorizationError::NotBeneficiary))
    } else if stake.entity_id != entity_id {
        Err(RegistryError::State(StateError::StakeMismatch))
    } else if stake.pending_withdrawal is Some {
        Err(RegistryError::State(StateError::WithdrawalPending))
    } else if amount > stake.amount || mega_amount > stake.mega_amount {
        Err(RegistryError::Invariant(InvariantError::AmountExceedsBalance))
    } else if now + registry.withdrawal_timelock > u64::MAX {
        Err(RegistryError::Invariant(InvariantError::Overflow))
    } else {
        Ok(())
    }
}

/// The stake with the reservation recorded; no balance moves yet.
pub open spec fn apply(
    registry: RegistryModel,
    stake: Stake,
    amount: u64,
    mega_amount: u64,
    now: u64,
) -> Stake {
    Stake {
        pending_withdrawal: Some(
            PendingWithdrawal {
                amount,
                mega_amount,
                release_timestamp: (now + registry.withdrawal_timelock) as u64,
            },
        ),
        ..stake
    }
}

/// The outcome of the whole operation.
pub open spec fn outcome(
    registry: RegistryModel,
    stake: Stake,
    entity_id: Pubkey,
    signer: Pubkey,
    amount: u64,
    mega_amount: u64,
    now: u64,
) -> Result<Stake, RegistryError> {
    match check(registry, stake, entity_id, signer, amount, mega_amount, now) {
        Ok(_) => Ok(apply(registry, stake, amount, mega_amount, now)),
        Err(e) => Err(e),
    }
}

pub fn access_control(
    registry: &Registry,
    stake: &Stake,
    entity_id: Pubkey,
    signer: Pubkey,
    amount: u64,
    mega_amount: u64,
    now: u64,
) -> (r: Result<(), RegistryError>)
    ensures
        r == check(registry@, *stake, entity_id, signer, amount, mega_amount, now),
{
    if !registry.initialized {
        return Err(RegistryError::State(StateError::RegistryNotInitialized));
    }
    if !stake.initialized {
        return Err(RegistryError::State(StateError::StakeNotInitialized));
    }
    if signer != stake.beneficiary {
        return Err(RegistryError::Authorization(AuthorizationError::NotBeneficiary));
    }
    if stake.entity_id != entity_id {
        return Err(RegistryError::State(StateError::StakeMismatch));
    }
    if stake.pending_withdrawal.is_some() {
        return Err(RegistryError::State(StateError::WithdrawalPending));
    }
    if amount > stake.amount || mega_amount > stake.mega_amount {
        return Err(RegistryError::Invariant(InvariantError::AmountExceedsBalance));
    }
    if now > u64::MAX - registry.withdrawal_timelock {
        return Err(RegistryError::Invariant(InvariantError::Overflow));
    }
    Ok(())
}

pub fn state_transition(
    registry: &Registry,
    stake: &mut Stake,
    amount: u64,
    mega_amount: u64,
    now: u64,
)
    requires
        now + registry.withdrawal_timelock <= u64::MAX,
    ensures
        *final(stake) == apply(registry@, *old(stake), amount, mega_amount, now),
{
    stake.pending_withdrawal = Some(
        PendingWithdrawal {
            amount,
            mega_amount,
            release_timestamp: now + registry.withdrawal_timelock,
        },
    );
}

/// Starts a withdrawal: reserves the amounts and records when they may be
/// released. On failure the stake is left as it was.
pub fn handler(
    registry: &Registry,
    stake: &mut Stake,
    entity_id: Pubkey,
    signer: Pubkey,
    amount: u64,
    mega_amount: u64,
    now: u64,
) -> (r: Result<(), RegistryError>)
    ensures
        match outcome(registry@, *old(stake), entity_id, signer, amount, mega_amount, now) {
            Ok(s) => r is Ok && *final(stake) == s,
            Err(e) => r == Err::<(), RegistryError>(e) && *final(stake) == *old(stake),
        },
{
    match access_control(registry, stake, entity_id, signer, amount, mega_amount, now) {
        Ok(_) => {},
        Err(e) => {
            return Err(e);
        },
    }
    state_transition(registry, stake, amount, mega_amount, now);
    Ok(())
}

} // verus!
