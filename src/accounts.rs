use vstd::prelude::*;
use crate::pubkey::Pubkey;
use crate::weights::CAPABILITY_COUNT;

verus! {

/// The registry singleton: the two denominations, the capability table and
/// the authority that maintains it.
#[derive(Debug)]
pub struct Registry {
    pub initialized: bool,
    pub mint: Pubkey,
    pub mega_mint: Pubkey,
    pub nonce: u8,
    pub mega_nonce: u8,
    /// Slot `i` holds the program of capability `i`, or the null address.
    pub capabilities: Vec<Pubkey>,
    /// Slot `i` holds the reward weight of capability `i`, in units of
    /// `WEIGHT_SCALE`.
    pub capability_weights: Vec<u64>,
    pub authority: Pubkey,
    /// Seconds between initiating and completing a stake withdrawal.
    pub withdrawal_timelock: u64,
}

/// The registry as a mathematical value.
pub struct RegistryModel {
    pub initialized: bool,
    pub mint: Pubkey,
    pub mega_mint: Pubkey,
    pub nonce: u8,
    pub mega_nonce: u8,
    pub capabilities: Seq<Pubkey>,
    pub capability_weights: Seq<u64>,
    pub authority: Pubkey,
    pub withdrawal_timelock: u64,
}

impl RegistryModel {
    pub open spec fn wf(self) -> bool {
        &&& self.capabilities.len() == CAPABILITY_COUNT
        &&& self.capability_weights.len() == CAPABILITY_COUNT
    }
}

impl View for Registry {
    type V = RegistryModel;

    open spec fn view(&self) -> RegistryModel {
        RegistryModel {
            initialized: self.initialized,
            mint: self.mint,
            mega_mint: self.mega_mint,
            nonce: self.nonce,
            mega_nonce: self.mega_nonce,
            capabilities: self.capabilities@,
            capability_weights: self.capability_weights@,
            authority: self.authority,
            withdrawal_timelock: self.withdrawal_timelock,
        }
    }
}

impl Registry {
    pub open spec fn wf(&self) -> bool {
        self@.wf()
    }

    /// An uninitialized registry record with every slot empty.
    pub fn new() -> (r: Registry)
        ensures
            r.wf(),
            !r.initialized,
            r.capabilities@ == Seq::new(CAPABILITY_COUNT as nat, |i: int| Pubkey::spec_zero()),
            r.capability_weights@ == Seq::new(CAPABILITY_COUNT as nat, |i: int| 0u64),
    {
        Registry {
            initialized: false,
            mint: Pubkey::zero(),
            mega_mint: Pubkey::zero(),
            nonce: 0,
            mega_nonce: 0,
            capabilities: empty_capabilities(),
            capability_weights: zero_weights(),
            authority: Pubkey::zero(),
            withdrawal_timelock: 0,
        }
    }
}

/// A capability table with every slot empty.
pub fn empty_capabilities() -> (r: Vec<Pubkey>)
    ensures
        r@ == Seq::new(CAPABILITY_COUNT as nat, |i: int| Pubkey::spec_zero()),
{
    let mut v: Vec<Pubkey> = Vec::new();
    let mut i: usize = 0;
    while i < CAPABILITY_COUNT
        invariant
            i <= CAPABILITY_COUNT,
            v@ == Seq::new(i as nat, |j: int| Pubkey::spec_zero()),
        decreases CAPABILITY_COUNT - i,
    {
        v.push(Pubkey::zero());
        i = i + 1;
        assert(v@ =~= Seq::new(i as nat, |j: int| Pubkey::spec_zero()));
    }
    v
}

/// A weight vector with every slot zero.
pub fn zero_weights() -> (r: Vec<u64>)
    ensures
        r@ == Seq::new(CAPABILITY_COUNT as nat, |i: int| 0u64),
{
    let mut v: Vec<u64> = Vec::new();
    let mut i: usize = 0;
    while i < CAPABILITY_COUNT
        invariant
            i <= CAPABILITY_COUNT,
            v@ == Seq::new(i as nat, |j: int| 0u64),
        decreases CAPABILITY_COUNT - i,
    {
        v.push(0);
        i = i + 1;
        assert(v@ =~= Seq::new(i as nat, |j: int| 0u64));
    }
    v
}

/// Whether stakers of an entity receive voting rights. Fixed when the
/// entity is created.
#[derive(Clone, Copy, Debug, PartialEq, Eq, Structural)]
pub enum StakeKind {
    Voting,
    Delegated,
}

/// A node that participants stake with.
#[derive(Clone, Copy, Debug, PartialEq, Eq, Structural)]
pub struct Entity {
    /// The principal responsible for the node's duties.
    pub leader: Pubkey,
    pub initialized: bool,
    /// Pooled stake in the primary denomination.
    pub amount: u64,
    /// Pooled stake in the mega denomination.
    pub mega_amount: u64,
    /// Bitmap of the capability ids this entity claims to fulfil.
    pub capabilities: u32,
    pub stake_kind: StakeKind,
}

impl Entity {
    /// An uninitialized entity record.
    pub fn new() -> (r: Entity)
        ensures
            !r.initialized,
            r.amount == 0,
            r.mega_amount == 0,
    {
        Entity {
            leader: Pubkey::zero(),
            initialized: false,
            amount: 0,
            mega_amount: 0,
            capabilities: 0,
            stake_kind: StakeKind::Voting,
        }
    }
}

/// Amounts reserved by an initiated withdrawal, and when they are released.
#[derive(Clone, Copy, Debug, PartialEq, Eq, Structural)]
pub struct PendingWithdrawal {
    pub amount: u64,
    pub mega_amount: u64,
    pub release_timestamp: u64,
}

/// One beneficiary's deposit with one entity.
#[derive(Clone, Copy, Debug, PartialEq, Eq, Structural)]
pub struct Stake {
    pub initialized: bool,
    /// The principal that collects rewards and withdraws.
    pub beneficiary: Pubkey,
    /// The entity this stake is deposited with. The stake does not own it.
    pub entity_id: Pubkey,
    pub amount: u64,
    pub mega_amount: u64,
    /// `None` while idle; the reservation while a withdrawal is pending.
    pub pending_withdrawal: Option<PendingWithdrawal>,
}

impl Stake {
    /// An uninitialized stake record.
    pub fn new() -> (r: Stake)
        ensures
            !r.initialized,
            r.amount == 0,
            r.mega_amount == 0,
            r.pending_withdrawal is None,
    {
        Stake {
            initialized: false,
            beneficiary: Pubkey::zero(),
            entity_id: Pubkey::zero(),
            amount: 0,
            mega_amount: 0,
            pending_withdrawal: None,
        }
    }
}

} // verus!
