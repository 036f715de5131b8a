use vstd::prelude::*;

verus! {

/// The invoking principal lacks the role that the operation requires.
#[derive(Clone, Copy, Debug, PartialEq, Eq, Structural)]
pub enum AuthorizationError {
    NotLeader,
    NotAuthority,
    NotBeneficiary,
}

/// A record is in the wrong lifecycle state for the operation.
#[derive(Clone, Copy, Debug, PartialEq, Eq, Structural)]
pub enum StateError {
    RegistryNotInitialized,
    AlreadyInitialized,
    EntityNotInitialized,
    StakeNotInitialized,
    StakeMismatch,
    WithdrawalPending,
    NoPendingWithdrawal,
}

/// The operation would break a numeric invariant.
#[derive(Clone, Copy, Debug, PartialEq, Eq, Structural)]
pub enum InvariantError {
    ZeroTotalWeight,
    InvalidCapabilityId,
    ZeroAmount,
    AmountExceedsBalance,
    Overflow,
    DenominationMismatch,
}

/// The withdrawal's release time has not been reached.
#[derive(Clone, Copy, Debug, PartialEq, Eq, Structural)]
pub enum TimelockError {
    WithdrawalLocked,
}

/// A payload does not have the expected shape.
#[derive(Clone, Copy, Debug, PartialEq, Eq, Structural)]
pub enum SerializationError {
    WrongSerialization,
}

#[derive(Clone, Copy, Debug, PartialEq, Eq, Structural)]
pub enum RegistryError {
    Authorization(AuthorizationError),
    State(StateError),
    Invariant(InvariantError),
    Timelock(TimelockError),
    Serialization(SerializationError),
}

} // verus!
