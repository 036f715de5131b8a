use vstd::prelude::*;
use crate::accounts::{Entity, RegistryModel, Stake};
use crate::add_stake;
use crate::complete_stake_withdrawal;
use crate::error::{AuthorizationError, RegistryError, StateError, TimelockError};
use crate::initiate_stake_withdrawal;
use crate::pubkey::Pubkey;
use crate::register_capability;
use crate::stake;
use crate::update_entity;
use crate::weights::{
    lemma_weight_sum_bounds,
    lemma_weight_sum_update,
    lemma_scaled_sum_bound,
    normalized,
    total_weight,
    weight_sum,
    WEIGHT_SCALE,
};

verus! {

/// When the held weights and the incoming weight add up to exactly one
/// whole, and the slot being registered is empty, rescaling changes no
/// held weight and the weights still add up to one whole afterwards.
/// (Outside this case the registered weight is stored unscaled and the sum
/// may drift from one whole.)
pub proof fn lemma_register_keeps_unit_sum(
    registry: RegistryModel,
    signer: Pubkey,
    capability_id: u8,
    capability_program: Pubkey,
    capability_weight: u64,
)
    requires
        registry.wf(),
        register_capability::check(registry, signer, capability_id, capability_weight) is Ok,
        weight_sum(registry.capability_weights) + capability_weight == WEIGHT_SCALE,
        registry.capability_weights[capability_id as int] == 0,
    ensures
        ({
            let after = register_capability::apply(
                registry,
                capability_id,
                capability_program,
                capability_weight,
            );
            &&& after.capability_weights == registry.capability_weights.update(
                capability_id as int,
                capability_weight,
            )
            &&& weight_sum(after.capability_weights) == WEIGHT_SCALE
        }),
{
    let s = registry.capability_weights;
    let n = normalized(s, capability_weight);
    assert forall|i: int| 0 <= i < s.len() implies n[i] == s[i] by {
        let x = s[i] as int;
        let k = WEIGHT_SCALE as int;
        assert(x * k / k == x) by (nonlinear_arith)
            requires
                k > 0,
        ;
    }
    assert(n =~= s);
    lemma_weight_sum_update(s, capability_id as int, capability_weight);
}

/// Registering a capability at a slot that is already in use replaces the
/// slot's program and weight instead of failing: after two registrations
/// at the same slot the second program and weight are the ones held, and
/// every other slot holds the program it held before.
pub proof fn lemma_register_overwrites(
    registry: RegistryModel,
    signer: Pubkey,
    capability_id: u8,
    first_program: Pubkey,
    first_weight: u64,
    second_program: Pubkey,
    second_weight: u64,
)
    requires
        registry.wf(),
        register_capability::outcome(
            registry,
            signer,
            capability_id,
            first_program,
            first_weight,
        ) is Ok,
        second_weight > 0,
    ensures
        ({
            let first = register_capability::outcome(
                registry,
                signer,
                capability_id,
                first_program,
                first_weight,
            )->Ok_0;
            let second = register_capability::outcome(
                first,
                signer,
                capability_id,
                second_program,
                second_weight,
            );
            &&& second is Ok
            &&& second->Ok_0.wf()
            &&& second->Ok_0.capabilities[capability_id as int] == second_program
            &&& second->Ok_0.capability_weights[capability_id as int] == second_weight
            &&& first_program != second_program ==> second->Ok_0.capabilities[capability_id as int]
                != first_program
            &&& forall|j: int|
                0 <= j < second->Ok_0.capabilities.len() && j != capability_id ==> second->Ok_0.capabilities[j]
                    == registry.capabilities[j]
        }),
{
    let first = register_capability::outcome(
        registry,
        signer,
        capability_id,
        first_program,
        first_weight,
    )->Ok_0;
    lemma_weight_sum_bounds(first.capability_weights);
}

/// Adding to a stake that was never opened fails as such.
pub proof fn lemma_add_stake_needs_stake(
    registry: RegistryModel,
    entity: Entity,
    stake: Stake,
    entity_id: Pubkey,
    amount: u64,
)
    requires
        !stake.initialized,
    ensures
        add_stake::outcome(registry, entity, stake, entity_id, amount) == Err::<
            (Entity, Stake),
            RegistryError,
        >(RegistryError::State(StateError::StakeNotInitialized)),
{
}

/// Only the leader may update an entity; anyone else is refused, and the
/// refused update leaves the entity as it was.
pub proof fn lemma_update_entity_needs_leader(entity: Entity, signer: Pubkey)
    requires
        entity.initialized,
        signer != entity.leader,
    ensures
        update_entity::check(entity, signer) == Err::<(), RegistryError>(
            RegistryError::Authorization(AuthorizationError::NotLeader),
        ),
{
}

/// Two deposits by different beneficiaries into the same entity both
/// succeed in either order, and leave the entity's pool the same either
/// way: the old pool plus both deposits.
pub proof fn lemma_stakes_commute(
    registry: RegistryModel,
    entity: Entity,
    first_stake: Stake,
    second_stake: Stake,
    entity_id: Pubkey,
    first_beneficiary: Pubkey,
    second_beneficiary: Pubkey,
    first_amount: u64,
    second_amount: u64,
)
    requires
        registry.initialized,
        entity.initialized,
        first_amount > 0,
        second_amount > 0,
        first_stake.initialized ==> first_stake.beneficiary == first_beneficiary
            && first_stake.entity_id == entity_id && first_stake.amount + first_amount
            <= u64::MAX,
        second_stake.initialized ==> second_stake.beneficiary == second_beneficiary
            && second_stake.entity_id == entity_id && second_stake.amount + second_amount
            <= u64::MAX,
        entity.amount + first_amount + second_amount <= u64::MAX,
    ensures
        ({
            let a1 = stake::outcome(
                registry,
                entity,
                first_stake,
                entity_id,
                first_beneficiary,
                first_amount,
                false,
            );
            let a2 = stake::outcome(
                registry,
                a1->Ok_0.0,
                second_stake,
                entity_id,
                second_beneficiary,
                second_amount,
                false,
            );
            let b1 = stake::outcome(
                registry,
                entity,
                second_stake,
                entity_id,
                second_beneficiary,
                second_amount,
                false,
            );
            let b2 = stake::outcome(
                registry,
                b1->Ok_0.0,
                first_stake,
                entity_id,
                first_beneficiary,
                first_amount,
                false,
            );
            &&& a1 is Ok && a2 is Ok && b1 is Ok && b2 is Ok
            &&& a2->Ok_0.0 == b2->Ok_0.0
            &&& a2->Ok_0.0.amount == entity.amount + first_amount + second_amount
            &&& a2->Ok_0.1 == b1->Ok_0.1
            &&& b2->Ok_0.1 == a1->Ok_0.1
        }),
{
}

/// A deposit followed at once by a request to withdraw it: completing
/// before the timelock has run out fails with the timelock error; from the
/// release time on it succeeds, releases the amount and lowers the entity's
/// pool by exactly that amount.
pub proof fn lemma_withdrawal_timelock(
    registry: RegistryModel,
    entity: Entity,
    stake_record: Stake,
    entity_id: Pubkey,
    beneficiary: Pubkey,
    amount: u64,
    initiated_at: u64,
    completed_at: u64,
)
    requires
        registry.initialized,
        entity.initialized,
        amount > 0,
        stake_record.initialized ==> stake_record.beneficiary == beneficiary
            && stake_record.entity_id == entity_id && stake_record.pending_withdrawal is None
            && stake_record.amount + amount <= u64::MAX,
        entity.amount + amount <= u64::MAX,
        initiated_at + registry.withdrawal_timelock <= u64::MAX,
    ensures
        ({
            let deposited = stake::outcome(
                registry,
                entity,
                stake_record,
                entity_id,
                beneficiary,
                amount,
                false,
            );
            let e1 = deposited->Ok_0.0;
            let initiated = initiate_stake_withdrawal::outcome(
                registry,
                deposited->Ok_0.1,
                entity_id,
                beneficiary,
                amount,
                0,
                initiated_at,
            );
            let completed = complete_stake_withdrawal::outcome(
                registry,
                e1,
                initiated->Ok_0,
                entity_id,
                beneficiary,
                true,
                false,
                completed_at,
            );
            &&& deposited is Ok
            &&& initiated is Ok
            &&& completed_at < initiated_at + registry.withdrawal_timelock ==> completed == Err::<
                (Entity, Stake, crate::accounts::PendingWithdrawal),
                RegistryError,
            >(RegistryError::Timelock(TimelockError::WithdrawalLocked))
            &&& completed_at >= initiated_at + registry.withdrawal_timelock ==> {
                &&& completed is Ok
                &&& completed->Ok_0.0.amount == e1.amount - amount
                &&& completed->Ok_0.2.amount == amount
                &&& completed->Ok_0.2.mega_amount == 0
            }
        }),
{
}

/// Every operation that moves value moves the entity's pool and the stake
/// in lockstep: a deposit raises both by the deposit, in its denomination
/// only, and a completed withdrawal lowers both by the released amounts.
pub proof fn lemma_pool_moves_with_stake(
    registry: RegistryModel,
    entity: Entity,
    stake_record: Stake,
    entity_id: Pubkey,
    signer: Pubkey,
    amount: u64,
    is_mega: bool,
    is_token: bool,
    now: u64,
)
    ensures
        stake::outcome(registry, entity, stake_record, entity_id, signer, amount, is_mega) matches Ok(
            (e, s),
        ) ==> {
            let base = stake::opened(stake_record, signer, entity_id);
            if is_mega {
                &&& e.mega_amount == entity.mega_amount + amount
                &&& s.mega_amount == base.mega_amount + amount
                &&& e.amount == entity.amount && s.amount == base.amount
            } else {
                &&& e.amount == entity.amount + amount
                &&& s.amount == base.amount + amount
                &&& e.mega_amount == entity.mega_amount && s.mega_amount == base.mega_amount
            }
        },
        add_stake::outcome(registry, entity, stake_record, entity_id, amount) matches Ok((e, s))
            ==> e.amount == entity.amount + amount && s.amount == stake_record.amount + amount,
        complete_stake_withdrawal::outcome(
            registry,
            entity,
            stake_record,
            entity_id,
            signer,
            is_token,
            is_mega,
            now,
        ) matches Ok((e, s, p)) ==> {
            &&& e.amount == entity.amount - p.amount
            &&& s.amount == stake_record.amount - p.amount
            &&& e.mega_amount == entity.mega_amount - p.mega_amount
            &&& s.mega_amount == stake_record.mega_amount - p.mega_amount
            &&& s.pending_withdrawal is None
        },
{
}

/// What every registration does to the sum of the weights: the held
/// weights, once rescaled, add up to at most the share `S / (S + w)` of one
/// whole, where `S` is their sum before and `w` the incoming weight; the
/// incoming weight is then stored as given, so the sum after the call is at
/// most that share plus `w`. It equals one whole only in particular cases
/// (see `lemma_register_keeps_unit_sum`).
pub proof fn lemma_register_weight_bound(
    registry: RegistryModel,
    signer: Pubkey,
    capability_id: u8,
    capability_program: Pubkey,
    capability_weight: u64,
)
    requires
        registry.wf(),
        register_capability::check(registry, signer, capability_id, capability_weight) is Ok,
    ensures
        ({
            let s = registry.capability_weights;
            let rescaled = normalized(s, capability_weight);
            let after = register_capability::apply(
                registry,
                capability_id,
                capability_program,
                capability_weight,
            );
            &&& weight_sum(rescaled) * total_weight(s, capability_weight) <= weight_sum(s) * (
            WEIGHT_SCALE as int)
            &&& weight_sum(after.capability_weights) <= weight_sum(rescaled) + capability_weight
        }),
{
    let s = registry.capability_weights;
    let rescaled = normalized(s, capability_weight);
    lemma_weight_sum_bounds(s);
    lemma_scaled_sum_bound(s, total_weight(s, capability_weight));
    lemma_weight_sum_update(rescaled, capability_id as int, capability_weight);
}

} // verus!
