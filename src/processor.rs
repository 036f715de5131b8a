use vstd::prelude::*;
use crate::accounts::{Entity, PendingWithdrawal, Registry, RegistryModel, Stake};
use crate::add_stake;
use crate::collect_rewards;
use crate::complete_stake_withdrawal;
use crate::create_entity;
use crate::donate;
use crate::error::RegistryError;
use crate::initialize;
use crate::initiate_stake_withdrawal;
use crate::instruction::{Context, RegistryInstruction};
use crate::register_capability;
use crate::set_capability_weights;
use crate::stake;
use crate::update_entity;

verus! {

/// The records after a request, and the amounts it released from the vault.
pub type Records = (RegistryModel, Entity, Stake, Option<PendingWithdrawal>);

/// The outcome of one request against the registry, an entity and a stake.
pub open spec fn process(
    registry: RegistryModel,
    entity: Entity,
    stake_record: Stake,
    ctx: Context,
    instruction: RegistryInstruction,
) -> Result<Records, RegistryError> {
    match instruction {
        RegistryInstruction::Initialize { authority, nonce, mega_nonce, withdrawal_timelock } => {
            match initialize::outcome(
                registry,
                authority,
                ctx.mint,
                ctx.mega_mint,
                nonce,
                mega_nonce,
                withdrawal_timelock,
            ) {
                Ok(m) => Ok((m, entity, stake_record, None)),
                Err(e) => Err(e),
            }
        },
        RegistryInstruction::Donate { amount, .. } => match donate::check(registry, amount) {
            Ok(_) => Ok((registry, entity, stake_record, None)),
            Err(e) => Err(e),
        },
        RegistryInstruction::CreateEntity { capabilities, stake_kind } => {
            match create_entity::outcome(entity, ctx.signer, ctx.signer, capabilities, stake_kind) {
                Ok(e) => Ok((registry, e, stake_record, None)),
                Err(e) => Err(e),
            }
        },
        RegistryInstruction::UpdateEntity { capabilities } => {
            match update_entity::outcome(entity, ctx.signer, capabilities) {
                Ok(e) => Ok((registry, e, stake_record, None)),
                Err(e) => Err(e),
            }
        },
        RegistryInstruction::RegisterCapability {
            capability_id,
            capability_program,
            capability_weight,
        } => match register_capability::outcome(
            registry,
            ctx.signer,
            capability_id,
            capability_program,
            capability_weight,
        ) {
            Ok(m) => Ok((m, entity, stake_record, None)),
            Err(e) => Err(e),
        },
        RegistryInstruction::SetCapabilityWeights { capability_weights } => {
            match set_capability_weights::outcome(registry, ctx.signer, capability_weights@) {
                Ok(m) => Ok((m, entity, stake_record, None)),
                Err(e) => Err(e),
            }
        },
        RegistryInstruction::Stake { amount, beneficiary, is_mega } => match stake::outcome(
            registry,
            entity,
            stake_record,
            ctx.entity_id,
            beneficiary,
            amount,
            is_mega,
        ) {
            Ok((e, s)) => Ok((registry, e, s, None)),
            Err(e) => Err(e),
        },
        RegistryInstruction::StakeLocked => Ok((registry, entity, stake_record, None)),
        RegistryInstruction::AddStake { amount } => match add_stake::outcome(
            registry,
            entity,
            stake_record,
            ctx.entity_id,
            amount,
        ) {
            Ok((e, s)) => Ok((registry, e, s, None)),
            Err(e) => Err(e),
        },
        RegistryInstruction::CollectRewards => match collect_rewards::check(
            registry,
            entity,
            stake_record,
            ctx.entity_id,
            ctx.signer,
        ) {
            Ok(_) => Ok((registry, entity, stake_record, None)),
            Err(e) => Err(e),
        },
        RegistryInstruction::InitiateStakeWithdrawal { amount, mega_amount } => {
            match initiate_stake_withdrawal::outcome(
                registry,
                stake_record,
                ctx.entity_id,
                ctx.signer,
                amount,
                mega_amount,
                ctx.now,
            ) {
                Ok(s) => Ok((registry, entity, s, None)),
                Err(e) => Err(e),
            }
        },
        RegistryInstruction::CompleteStakeWithdrawal { is_token, is_mega } => {
            match complete_stake_withdrawal::outcome(
                registry,
                entity,
                stake_record,
                ctx.entity_id,
                ctx.signer,
                is_token,
                is_mega,
                ctx.now,
            ) {
                Ok((e, s, p)) => Ok((registry, e, s, Some(p))),
                Err(e) => Err(e),
            }
        },
    }
}

/// Runs one request: routes it to its operation, which validates it and
/// then applies it. Returns the amounts to release from the vault, if the
/// request released any. On failure every record is left as it was.
pub fn process_instruction(
    registry: &mut Registry,
    entity: &mut Entity,
    stake_record: &mut Stake,
    ctx: Context,
    instruction: RegistryInstruction,
) -> (r: Result<Option<PendingWithdrawal>, RegistryError>)
    requires
        old(registry).wf(),
    ensures
        final(registry).wf(),
        match process(old(registry)@, *old(entity), *old(stake_record), ctx, instruction) {
            Ok((m, e, s, p)) => r == Ok::<Option<PendingWithdrawal>, RegistryError>(p)
                && final(registry)@ == m && *final(entity) == e && *final(stake_record) == s,
            Err(err) => r == Err::<Option<PendingWithdrawal>, RegistryError>(err)
                && final(registry)@ == old(registry)@ && *final(entity) == *old(entity)
                && *final(stake_record) == *old(stake_record),
        },
{
    match instruction {
        RegistryInstruction::Initialize { authority, nonce, mega_nonce, withdrawal_timelock } => {
            match initialize::handler(
                registry,
                authority,
                ctx.mint,
                ctx.mega_mint,
                nonce,
                mega_nonce,
                withdrawal_timelock,
            ) {
                Ok(_) => Ok(None),
                Err(e) => Err(e),
            }
        },
        RegistryInstruction::Donate { amount, .. } => match donate::handler(registry, amount) {
            Ok(_) => Ok(None),
            Err(e) => Err(e),
        },
        RegistryInstruction::CreateEntity { capabilities, stake_kind } => {
            match create_entity::handler(entity, ctx.signer, ctx.signer, capabilities, stake_kind) {
                Ok(_) => Ok(None),
                Err(e) => Err(e),
            }
        },
        RegistryInstruction::UpdateEntity { capabilities } => {
            match update_entity::handler(entity, ctx.signer, capabilities) {
                Ok(_) => Ok(None),
                Err(e) => Err(e),
            }
        },
        RegistryInstruction::RegisterCapability {
            capability_id,
            capability_program,
            capability_weight,
        } => match register_capability::handler(
            registry,
            ctx.signer,
            capability_id,
            capability_program,
            capability_weight,
        ) {
            Ok(_) => Ok(None),
            Err(e) => Err(e),
        },
        RegistryInstruction::SetCapabilityWeights { capability_weights } => {
            match set_capability_weights::handler(registry, ctx.signer, capability_weights) {
                Ok(_) => Ok(None),
                Err(e) => Err(e),
            }
        },
        RegistryInstruction::Stake { amount, beneficiary, is_mega } => match stake::handler(
            registry,
            entity,
            stake_record,
            ctx.entity_id,
            beneficiary,
            amount,
            is_mega,
        ) {
            Ok(_) => Ok(None),
            Err(e) => Err(e),
        },
        RegistryInstruction::StakeLocked => Ok(None),
        RegistryInstruction::AddStake { amount } => match add_stake::handler(
            registry,
            entity,
            stake_record,
            ctx.entity_id,
            amount,
        ) {
            Ok(_) => Ok(None),
            Err(e) => Err(e),
        },
        RegistryInstruction::CollectRewards => match collect_rewards::handler(
            registry,
            entity,
            stake_record,
            ctx.entity_id,
            ctx.signer,
        ) {
            Ok(_) => Ok(None),
            Err(e) => Err(e),
        },
        RegistryInstruction::InitiateStakeWithdrawal { amount, mega_amount } => {
            match initiate_stake_withdrawal::handler(
                registry,
                stake_record,
                ctx.entity_id,
                ctx.signer,
                amount,
                mega_amount,
                ctx.now,
            ) {
                Ok(_) => Ok(None),
                Err(e) => Err(e),
            }
        },
        RegistryInstruction::CompleteStakeWithdrawal { is_token, is_mega } => {
            match complete_stake_withdrawal::handler(
                registry,
                entity,
                stake_record,
                ctx.entity_id,
                ctx.signer,
                is_token,
                is_mega,
                ctx.now,
            ) {
                Ok(p) => Ok(Some(p)),
                Err(e) => Err(e),
            }
        },
    }
}

} // verus!
