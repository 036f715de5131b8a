use staking_registry::accounts::{Entity, PendingWithdrawal, Registry, Stake, StakeKind};
use staking_registry::error::{RegistryError, StateError, TimelockError};
use staking_registry::instruction::{Context, RegistryInstruction};
use staking_registry::processor::process_instruction;
use staking_registry::pubkey::Pubkey;
use staking_registry::weights::{CAPABILITY_COUNT, WEIGHT_SCALE};

fn key(n: u64) -> Pubkey {
    Pubkey::new(n, 0, 0, 0)
}

fn ctx(signer: Pubkey, now: u64) -> Context {
    Context { signer, now, mint: key(2), mega_mint: key(3), entity_id: key(50) }
}

#[test]
fn dispatch_full_lifecycle() {
    let (mut registry, mut entity, mut stake) = (Registry::new(), Entity::new(), Stake::new());
    let a = key(1);
    let ins = RegistryInstruction::Initialize {
        authority: a,
        nonce: 4,
        mega_nonce: 5,
        withdrawal_timelock: 10,
    };
    assert_eq!(process_instruction(&mut registry, &mut entity, &mut stake, ctx(a, 0), ins), Ok(None));
    assert_eq!(registry.mint, key(2));
    assert_eq!(registry.mega_mint, key(3));

    let ins = RegistryInstruction::RegisterCapability {
        capability_id: 0,
        capability_program: key(10),
        capability_weight: 600_000,
    };
    process_instruction(&mut registry, &mut entity, &mut stake, ctx(a, 0), ins).unwrap();
    let ins = RegistryInstruction::RegisterCapability {
        capability_id: 1,
        capability_program: key(11),
        capability_weight: 400_000,
    };
    process_instruction(&mut registry, &mut entity, &mut stake, ctx(a, 0), ins).unwrap();
    assert_eq!(registry.capability_weights[0], 600_000);
    assert_eq!(registry.capability_weights[1], 400_000);
    assert_eq!(registry.capability_weights.iter().sum::<u64>(), WEIGHT_SCALE);

    let leader = key(5);
    let ins = RegistryInstruction::CreateEntity { capabilities: 0b11, stake_kind: StakeKind::Voting };
    process_instruction(&mut registry, &mut entity, &mut stake, ctx(leader, 0), ins).unwrap();
    assert_eq!(entity.leader, leader);

    let staker = key(7);
    let ins = RegistryInstruction::Stake { amount: 80, beneficiary: staker, is_mega: false };
    process_instruction(&mut registry, &mut entity, &mut stake, ctx(key(99), 0), ins).unwrap();
    let ins = RegistryInstruction::AddStake { amount: 20 };
    process_instruction(&mut registry, &mut entity, &mut stake, ctx(key(99), 0), ins).unwrap();
    assert_eq!(entity.amount, 100);

    let ins = RegistryInstruction::InitiateStakeWithdrawal { amount: 30, mega_amount: 0 };
    process_instruction(&mut registry, &mut entity, &mut stake, ctx(staker, 100), ins).unwrap();
    let ins = RegistryInstruction::CompleteStakeWithdrawal { is_token: true, is_mega: false };
    assert_eq!(
        process_instruction(&mut registry, &mut entity, &mut stake, ctx(staker, 109), ins),
        Err(RegistryError::Timelock(TimelockError::WithdrawalLocked))
    );
    let ins = RegistryInstruction::CompleteStakeWithdrawal { is_token: true, is_mega: false };
    assert_eq!(
        process_instruction(&mut registry, &mut entity, &mut stake, ctx(staker, 110), ins),
        Ok(Some(PendingWithdrawal { amount: 30, mega_amount: 0, release_timestamp: 110 }))
    );
    assert_eq!(entity.amount, 70);
    assert_eq!(stake.amount, 70);

    let ins = RegistryInstruction::CollectRewards;
    assert_eq!(process_instruction(&mut registry, &mut entity, &mut stake, ctx(staker, 0), ins), Ok(None));
    let ins = RegistryInstruction::StakeLocked;
    assert_eq!(process_instruction(&mut registry, &mut entity, &mut stake, ctx(staker, 0), ins), Ok(None));
    assert_eq!(entity.amount, 70);
}

#[test]
fn dispatch_refusal_leaves_records() {
    let (mut registry, mut entity, mut stake) = (Registry::new(), Entity::new(), Stake::new());
    let ins = RegistryInstruction::SetCapabilityWeights { capability_weights: vec![1; CAPABILITY_COUNT] };
    assert_eq!(
        process_instruction(&mut registry, &mut entity, &mut stake, ctx(key(1), 0), ins),
        Err(RegistryError::State(StateError::RegistryNotInitialized))
    );
    let ins = RegistryInstruction::AddStake { amount: 5 };
    assert_eq!(
        process_instruction(&mut registry, &mut entity, &mut stake, ctx(key(1), 0), ins),
        Err(RegistryError::State(StateError::StakeNotInitialized))
    );
    assert!(!registry.initialized);
    assert_eq!(registry.capability_weights, vec![0u64; CAPABILITY_COUNT]);
    assert_eq!(entity, Entity::new());
    assert_eq!(stake, Stake::new());
}
