use vstd::prelude::*;
use crate::accounts::StakeKind;
use crate::pubkey::Pubkey;

verus! {

/// One request to the registry, with its typed arguments. Decoding it from
/// bytes is the caller's.
#[derive(Debug)]
pub enum RegistryInstruction {
    /// Initializes the registry; `authority` may then maintain capabilities.
    Initialize { authority: Pubkey, nonce: u8, mega_nonce: u8, withdrawal_timelock: u64 },
    /// Donates funds to the reward vault.
    Donate { amount: u64, is_mega: bool },
    /// Registers a new entity led by the signer.
    CreateEntity { capabilities: u32, stake_kind: StakeKind },
    /// Replaces the capability bitmap of an entity.
    UpdateEntity { capabilities: u32 },
    /// Registers or replaces a capability program and its weight.
    RegisterCapability { capability_id: u8, capability_program: Pubkey, capability_weight: u64 },
    /// Replaces every capability weight.
    SetCapabilityWeights { capability_weights: Vec<u64> },
    /// Deposits funds with an entity for a beneficiary.
    Stake { amount: u64, beneficiary: Pubkey, is_mega: bool },
    /// Deposits locked funds; accepted and without effect.
    StakeLocked,
    /// Deposits more funds into an existing stake.
    AddStake { amount: u64 },
    /// Collects the rewards of a stake.
    CollectRewards,
    /// Reserves funds of a stake for withdrawal after the timelock.
    InitiateStakeWithdrawal { amount: u64, mega_amount: u64 },
    /// Releases the reserved funds once the timelock has passed.
    CompleteStakeWithdrawal { is_token: bool, is_mega: bool },
}

/// What the surrounding runtime knows about a request besides its
/// arguments: who signed it, when it runs, and the addresses of the records
/// it touches.
#[derive(Clone, Copy, Debug, PartialEq, Eq, Structural)]
pub struct Context {
    pub signer: Pubkey,
    pub now: u64,
    pub mint: Pubkey,
    pub mega_mint: Pubkey,
    pub entity_id: Pubkey,
}

} // verus!
