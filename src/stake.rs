use vstd::prelude::*;
use crate::accounts::{Entity, Registry, RegistryModel, Stake};
use crate::error::{InvariantError, RegistryError, StateError};
use crate::pubkey::Pubkey;

verus! {

/// The stake record a deposit is credited to: the record itself when it
/// exists, else a fresh one for the beneficiary and entity.
pub open spec fn opened(stake: Stake, beneficiary: Pubkey, entity_id: Pubkey) -> Stake {
    if stake.initialized {
        stake
    } else {
        Stake {
            initialized: true,
            beneficiary,
            entity_id,
            amount: 0,
            mega_amount: 0,
            pending_withdrawal: None,
        }
    }
}

/// Whether crediting `amount` keeps both balances of the chosen
/// denomination within `u64`.
pub open spec fn credit_fits(entity: Entity, stake: Stake, amount: u64, is_mega: bool) -> bool {
    if is_mega {
        entity.mega_amount + amount <= u64::MAX && stake.mega_amount + amount <= u64::MAX
    } else {
        entity.amount + amount <= u64::MAX && stake.amount + amount <= u64::MAX
    }
}

/// `amount` added to the chosen denomination of both the entity's pool and
/// the stake.
pub open spec fn credit(entity: Entity, stake: Stake, amount: u64, is_mega: bool) -> (Entity, Stake) {
    if is_mega {
        (
            Entity { mega_amount: (entity.mega_amount + amount) as u64, ..entity },
            Stake { mega_amount: (stake.mega_amount + amount) as u64, ..stake },
        )
    } else {
        (
            Entity { amount: (entity.amount + amount) as u64, ..entity },
            Stake { amount: (stake.amount + amount) as u64, ..stake },
        )
    }
}

/// Credits a deposit to the entity's pool and to the stake.
pub fn credit_records(entity: &mut Entity, stake: &mut Stake, amount: u64, is_mega: bool)
    requires
        credit_fits(*old(entity), *old(stake), amount, is_mega),
    ensures
        (*final(entity), *final(stake)) == credit(*old(entity), *old(stake), amount, is_mega),
{
    if is_mega {
        entity.mega_amount = entity.mega_amount + amount;
        stake.mega_amount = stake.mega_amount + amount;
    } else {
        entity.amount = entity.amount + amount;
        stake.amount = stake.amount + amount;
    }
}

/// Whether a deposit of `amount` by `beneficiary` with the entity at
/// `entity_id` may proceed.
pub open spec fn check(
    registry: RegistryModel,
    entity: Entity,
    stake: Stake,
    entity_id: Pubkey,
    beneficiary: Pubkey,
    amount: u64,
    is_mega: bool,
) -> Result<(), RegistryError> {
    if !registry.initialized {
        Err(RegistryError::State(StateError::RegistryNotInitialized))
    } else if amount == 0 {
        Err(RegistryError::Invariant(InvariantError::ZeroAmount))
    } else if !entity.initialized {
        Err(RegistryError::State(StateError::EntityNotInitialized))
    } else if stake.initialized && (stake.beneficiary != beneficiary || stake.entity_id
        != entity_id) {
        Err(RegistryError::State(StateError::StakeMismatch))
    } else if !credit_fits(entity, opened(stake, beneficiary, entity_id), amount, is_mega) {
        Err(RegistryError::Invariant(InvariantError::Overflow))
    } else {
        Ok(())
    }
}

/// The entity and stake after the deposit.
pub open spec fn apply(
    entity: Entity,
    stake: Stake,
    entity_id: Pubkey,
    beneficiary: Pubkey,
    amount: u64,
    is_mega: bool,
) -> (Entity, Stake) {
    credit(entity, opened(stake, beneficiary, entity_id), amount, is_mega)
}

/// The outcome of the whole operation.
pub open spec fn outcome(
    registry: RegistryModel,
    entity: Entity,
    stake: Stake,
    entity_id: Pubkey,
    beneficiary: Pubkey,
    amount: u64,
    is_mega: bool,
) -> Result<(Entity, Stake), RegistryError> {
    match check(registry, entity, stake, entity_id, beneficiary, amount, is_mega) {
        Ok(_) => Ok(apply(entity, stake, entity_id, beneficiary, amount, is_mega)),
        Err(e) => Err(e),
    }
}

pub fn access_control(
    registry: &Registry,
    entity: &Entity,
    stake: &Stake,
    entity_id: Pubkey,
    beneficiary: Pubkey,
    amount: u64,
    is_mega: bool,
) -> (r: Result<(), RegistryError>)
    ensures
        r == check(registry@, *entity, *stake, entity_id, beneficiary, amount, is_mega),
{
    if !registry.initialized {
        return Err(RegistryError::State(StateError::RegistryNotInitialized));
    }
    if amount == 0 {
        return Err(RegistryError::Invariant(InvariantError::ZeroAmount));
    }
    if !entity.initialized {
        return Err(RegistryError::State(StateError::EntityNotInitialized));
    }
    if stake.initialized && (stake.beneficiary != beneficiary || stake.entity_id != entity_id) {
        return Err(RegistryError::State(StateError::StakeMismatch));
    }
    let (held, pooled): (u64, u64) = if !stake.initialized {
        (0, if is_mega { entity.mega_amount } else { entity.amount })
    } else if is_mega {
        (stake.mega_amount, entity.mega_amount)
    } else {
        (stake.amount, entity.amount)
    };
    if amount > u64::MAX - held || amount > u64::MAX - pooled {
        return Err(RegistryError::Invariant(InvariantError::Overflow));
    }
    Ok(())
}

pub fn state_transition(
    entity: &mut Entity,
    stake: &mut Stake,
    entity_id: Pubkey,
    beneficiary: Pubkey,
    amount: u64,
    is_mega: bool,
)
    requires
        credit_fits(*old(entity), opened(*old(stake), beneficiary, entity_id), amount, is_mega),
    ensures
        (*final(entity), *final(stake)) == apply(
            *old(entity),
            *old(stake),
            entity_id,
            beneficiary,
            amount,
            is_mega,
        ),
{
    if !stake.initialized {
        *stake = Stake {
            initialized: true,
            beneficiary,
            entity_id,
            amount: 0,
            mega_amount: 0,
            pending_withdrawal: None,
        };
    }
    credit_records(entity, stake, amount, is_mega);
}

/// Deposits `amount` with an entity on behalf of `beneficiary`, opening the
/// beneficiary's stake record on first use. The matching transfer into the
/// vault is the caller's, in the same atomic unit. On failure both records
/// are left as they were.
pub fn handler(
    registry: &Registry,
    entity: &mut Entity,
    stake: &mut Stake,
    entity_id: Pubkey,
    beneficiary: Pubkey,
    amount: u64,
    is_mega: bool,
) -> (r: Result<(), RegistryError>)
    ensures
        match outcome(registry@, *old(entity), *old(stake), entity_id, beneficiary, amount, is_mega) {
            Ok((e, s)) => r is Ok && *final(entity) == e && *final(stake) == s,
            Err(err) => r == Err::<(), RegistryError>(err) && *final(entity) == *old(entity)
                && *final(stake) == *old(stake),
        },
{
    match access_control(registry, entity, stake, entity_id, beneficiary, amount, is_mega) {
        Ok(_) => {},
        Err(e) => {
            return Err(e);
        },
    }
    state_transition(entity, stake, entity_id, beneficiary, amount, is_mega);
    Ok(())
}

} // verus!
