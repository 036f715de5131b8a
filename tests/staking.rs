use staking_registry::accounts::{Entity, PendingWithdrawal, Registry, Stake, StakeKind};
use staking_registry::add_stake;
use staking_registry::collect_rewards;
use staking_registry::complete_stake_withdrawal;
use staking_registry::create_entity;
use staking_registry::donate;
use staking_registry::error::{
    AuthorizationError, InvariantError, RegistryError, StateError, TimelockError,
};
use staking_registry::initialize;
use staking_registry::initiate_stake_withdrawal;
use staking_registry::pubkey::Pubkey;
use staking_registry::stake;

const TIMELOCK: u64 = 100;

fn key(n: u64) -> Pubkey {
    Pubkey::new(n, 0, 0, 0)
}

fn setup() -> (Registry, Entity) {
    let mut registry = Registry::new();
    initialize::handler(&mut registry, key(1), key(2), key(3), 0, 0, TIMELOCK).unwrap();
    let mut entity = Entity::new();
    create_entity::handler(&mut entity, key(5), key(5), 1, StakeKind::Voting).unwrap();
    (registry, entity)
}

#[test]
fn stake_opens_record_and_credits_pool() {
    let (registry, mut entity) = setup();
    let mut s = Stake::new();
    assert_eq!(stake::handler(&registry, &mut entity, &mut s, key(50), key(7), 40, false), Ok(()));
    assert!(s.initialized);
    assert_eq!(s.beneficiary, key(7));
    assert_eq!(s.entity_id, key(50));
    assert_eq!(s.amount, 40);
    assert_eq!(s.mega_amount, 0);
    assert_eq!(entity.amount, 40);
    assert_eq!(entity.mega_amount, 0);
}

#[test]
fn mega_stake_is_accounted_apart() {
    let (registry, mut entity) = setup();
    let mut s = Stake::new();
    stake::handler(&registry, &mut entity, &mut s, key(50), key(7), 40, false).unwrap();
    stake::handler(&registry, &mut entity, &mut s, key(50), key(7), 3, true).unwrap();
    assert_eq!(s.amount, 40);
    assert_eq!(s.mega_amount, 3);
    assert_eq!(entity.amount, 40);
    assert_eq!(entity.mega_amount, 3);
}

#[test]
fn stake_errors() {
    let (registry, mut entity) = setup();
    let mut s = Stake::new();
    assert_eq!(
        stake::handler(&registry, &mut entity, &mut s, key(50), key(7), 0, false),
        Err(RegistryError::Invariant(InvariantError::ZeroAmount))
    );
    let mut bare = Entity::new();
    assert_eq!(
        stake::handler(&registry, &mut bare, &mut s, key(50), key(7), 1, false),
        Err(RegistryError::State(StateError::EntityNotInitialized))
    );
    stake::handler(&registry, &mut entity, &mut s, key(50), key(7), 1, false).unwrap();
    assert_eq!(
        stake::handler(&registry, &mut entity, &mut s, key(50), key(8), 1, false),
        Err(RegistryError::State(StateError::StakeMismatch))
    );
    assert_eq!(
        stake::handler(&registry, &mut entity, &mut s, key(50), key(7), u64::MAX, false),
        Err(RegistryError::Invariant(InvariantError::Overflow))
    );
    assert_eq!(entity.amount, 1);
    assert_eq!(s.amount, 1);
    let fresh = Registry::new();
    assert_eq!(
        stake::handler(&fresh, &mut entity, &mut s, key(50), key(7), 1, false),
        Err(RegistryError::State(StateError::RegistryNotInitialized))
    );
}

#[test]
fn two_stakes_add_up_in_either_order() {
    let (registry, entity0) = setup();
    let mut e1 = entity0;
    let (mut s1, mut s2) = (Stake::new(), Stake::new());
    stake::handler(&registry, &mut e1, &mut s1, key(50), key(7), 30, false).unwrap();
    stake::handler(&registry, &mut e1, &mut s2, key(50), key(8), 12, false).unwrap();
    let mut e2 = entity0;
    let (mut t1, mut t2) = (Stake::new(), Stake::new());
    stake::handler(&registry, &mut e2, &mut t2, key(50), key(8), 12, false).unwrap();
    stake::handler(&registry, &mut e2, &mut t1, key(50), key(7), 30, false).unwrap();
    assert_eq!(e1.amount, 42);
    assert_eq!(e1, e2);
    assert_eq!(s1, t1);
    assert_eq!(s2, t2);
}

#[test]
fn add_stake_without_stake_is_refused() {
    let (registry, mut entity) = setup();
    let mut s = Stake::new();
    assert_eq!(
        add_stake::handler(&registry, &mut entity, &mut s, key(50), 10),
        Err(RegistryError::State(StateError::StakeNotInitialized))
    );
    assert_eq!(entity.amount, 0);
    assert!(!s.initialized);
}

#[test]
fn add_stake_credits_existing_stake() {
    let (registry, mut entity) = setup();
    let mut s = Stake::new();
    stake::handler(&registry, &mut entity, &mut s, key(50), key(7), 10, false).unwrap();
    assert_eq!(add_stake::handler(&registry, &mut entity, &mut s, key(50), 5), Ok(()));
    assert_eq!(s.amount, 15);
    assert_eq!(entity.amount, 15);
    assert_eq!(
        add_stake::handler(&registry, &mut entity, &mut s, key(51), 5),
        Err(RegistryError::State(StateError::StakeMismatch))
    );
    assert_eq!(
        add_stake::handler(&registry, &mut entity, &mut s, key(50), 0),
        Err(RegistryError::Invariant(InvariantError::ZeroAmount))
    );
}

#[test]
fn withdrawal_waits_for_timelock() {
    let (registry, mut entity) = setup();
    let mut s = Stake::new();
    stake::handler(&registry, &mut entity, &mut s, key(50), key(7), 25, false).unwrap();
    let before = entity.amount;
    initiate_stake_withdrawal::handler(&registry, &mut s, key(50), key(7), 25, 0, 1_000).unwrap();
    assert_eq!(
        s.pending_withdrawal,
        Some(PendingWithdrawal { amount: 25, mega_amount: 0, release_timestamp: 1_100 })
    );
    // balances are only reserved, not yet debited
    assert_eq!(s.amount, 25);
    assert_eq!(entity.amount, 25);
    let r = complete_stake_withdrawal::handler(
        &registry, &mut entity, &mut s, key(50), key(7), true, false, 1_099,
    );
    assert_eq!(r, Err(RegistryError::Timelock(TimelockError::WithdrawalLocked)));
    assert_eq!(entity.amount, 25);
    let r = complete_stake_withdrawal::handler(
        &registry, &mut entity, &mut s, key(50), key(7), true, false, 1_100,
    );
    assert_eq!(r, Ok(PendingWithdrawal { amount: 25, mega_amount: 0, release_timestamp: 1_100 }));
    assert_eq!(entity.amount, before - 25);
    assert_eq!(s.amount, 0);
    assert_eq!(s.pending_withdrawal, None);
}

#[test]
fn partial_mega_withdrawal() {
    let (registry, mut entity) = setup();
    let mut s = Stake::new();
    stake::handler(&registry, &mut entity, &mut s, key(50), key(7), 9, true).unwrap();
    initiate_stake_withdrawal::handler(&registry, &mut s, key(50), key(7), 0, 4, 0).unwrap();
    let r = complete_stake_withdrawal::handler(
        &registry, &mut entity, &mut s, key(50), key(7), true, true, 500,
    );
    assert_eq!(r, Err(RegistryError::Invariant(InvariantError::DenominationMismatch)));
    let r = complete_stake_withdrawal::handler(
        &registry, &mut entity, &mut s, key(50), key(7), false, true, 500,
    );
    assert!(r.is_ok());
    assert_eq!(s.mega_amount, 5);
    assert_eq!(entity.mega_amount, 5);
}

#[test]
fn initiate_withdrawal_errors() {
    let (registry, mut entity) = setup();
    let mut s = Stake::new();
    assert_eq!(
        initiate_stake_withdrawal::handler(&registry, &mut s, key(50), key(7), 1, 0, 0),
        Err(RegistryError::State(StateError::StakeNotInitialized))
    );
    stake::handler(&registry, &mut entity, &mut s, key(50), key(7), 10, false).unwrap();
    assert_eq!(
        initiate_stake_withdrawal::handler(&registry, &mut s, key(50), key(8), 1, 0, 0),
        Err(RegistryError::Authorization(AuthorizationError::NotBeneficiary))
    );
    assert_eq!(
        initiate_stake_withdrawal::handler(&registry, &mut s, key(51), key(7), 1, 0, 0),
        Err(RegistryError::State(StateError::StakeMismatch))
    );
    assert_eq!(
        initiate_stake_withdrawal::handler(&registry, &mut s, key(50), key(7), 11, 0, 0),
        Err(RegistryError::Invariant(InvariantError::AmountExceedsBalance))
    );
    assert_eq!(
        initiate_stake_withdrawal::handler(&registry, &mut s, key(50), key(7), 1, 0, u64::MAX),
        Err(RegistryError::Invariant(InvariantError::Overflow))
    );
    initiate_stake_withdrawal::handler(&registry, &mut s, key(50), key(7), 10, 0, 0).unwrap();
    assert_eq!(
        initiate_stake_withdrawal::handler(&registry, &mut s, key(50), key(7), 1, 0, 0),
        Err(RegistryError::State(StateError::WithdrawalPending))
    );
}

#[test]
fn complete_without_pending_is_refused() {
    let (registry, mut entity) = setup();
    let mut s = Stake::new();
    stake::handler(&registry, &mut entity, &mut s, key(50), key(7), 10, false).unwrap();
    let r = complete_stake_withdrawal::handler(
        &registry, &mut entity, &mut s, key(50), key(7), true, false, 0,
    );
    assert_eq!(r, Err(RegistryError::State(StateError::NoPendingWithdrawal)));
}

#[test]
fn complete_beyond_pool_is_refused() {
    let (registry, mut entity) = setup();
    let mut s = Stake::new();
    stake::handler(&registry, &mut entity, &mut s, key(50), key(7), 10, false).unwrap();
    initiate_stake_withdrawal::handler(&registry, &mut s, key(50), key(7), 10, 0, 0).unwrap();
    entity.amount = 4;
    let r = complete_stake_withdrawal::handler(
        &registry, &mut entity, &mut s, key(50), key(7), true, false, TIMELOCK,
    );
    assert_eq!(r, Err(RegistryError::Invariant(InvariantError::AmountExceedsBalance)));
    assert_eq!(s.amount, 10);
}

#[test]
fn collect_rewards_validates_and_changes_nothing() {
    let (registry, mut entity) = setup();
    let mut s = Stake::new();
    stake::handler(&registry, &mut entity, &mut s, key(50), key(7), 10, false).unwrap();
    let (e0, s0) = (entity, s);
    assert_eq!(collect_rewards::handler(&registry, &entity, &s, key(50), key(7)), Ok(()));
    assert_eq!(
        collect_rewards::handler(&registry, &entity, &s, key(50), key(8)),
        Err(RegistryError::Authorization(AuthorizationError::NotBeneficiary))
    );
    assert_eq!((entity, s), (e0, s0));
}

#[test]
fn donate_checks() {
    let (registry, _) = setup();
    assert_eq!(donate::handler(&registry, 5), Ok(()));
    assert_eq!(
        donate::handler(&registry, 0),
        Err(RegistryError::Invariant(InvariantError::ZeroAmount))
    );
    assert_eq!(
        donate::handler(&Registry::new(), 5),
        Err(RegistryError::State(StateError::RegistryNotInitialized))
    );
}
