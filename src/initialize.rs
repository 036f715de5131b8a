use vstd::prelude::*;
use crate::accounts::{empty_capabilities, zero_weights, Registry, RegistryModel};
use crate::error::{RegistryError, StateError};
use crate::pubkey::Pubkey;
use crate::weights::CAPABILITY_COUNT;

verus! {

/// A registry may be initialized once.
pub open spec fn check(registry: RegistryModel) -> Result<(), RegistryError> {
    if registry.initialized {
        Err(RegistryError::State(StateError::AlreadyInitialized))
    } else {
        Ok(())
    }
}

/// The freshly initialized registry: no capability, every weight zero.
pub open spec fn apply(
    authority: Pubkey,
    mint: Pubkey,
    mega_mint: Pubkey,
    nonce: u8,
    mega_nonce: u8,
    withdrawal_timelock: u64,
) -> RegistryModel {
    RegistryModel {
        initialized: true,
        mint,
        mega_mint,
        nonce,
        mega_nonce,
        capabilities: Seq::new(CAPABILITY_COUNT as nat, |i: int| Pubkey::spec_zero()),
        capability_weights: Seq::new(CAPABILITY_COUNT as nat, |i: int| 0u64),
        authority,
        withdrawal_timelock,
    }
}

/// The outcome of the whole operation.
pub open spec fn outcome(
    registry: RegistryModel,
    authority: Pubkey,
    mint: Pubkey,
    mega_mint: Pubkey,
    nonce: u8,
    mega_nonce: u8,
    withdrawal_timelock: u64,
) -> Result<RegistryModel, RegistryError> {
    match check(registry) {
        Ok(_) => Ok(apply(authority, mint, mega_mint, nonce, mega_nonce, withdrawal_timelock)),
        Err(e) => Err(e),
    }
}

pub fn access_control(registry: &Registry) -> (r: Result<(), RegistryError>)
    ensures
        r == check(registry@),
{
    if registry.initialized {
        Err(RegistryError::State(StateError::AlreadyInitialized))
    } else {
        Ok(())
    }
}

pub fn state_transition(
    registry: &mut Registry,
    authority: Pubkey,
    mint: Pubkey,
    mega_mint: Pubkey,
    nonce: u8,
    mega_nonce: u8,
    withdrawal_timelock: u64,
)
    ensures
        final(registry)@ == apply(authority, mint, mega_mint, nonce, mega_nonce, withdrawal_timelock),
{
    registry.initialized = true;
    registry.mint = mint;
    registry.mega_mint = mega_mint;
    registry.nonce = nonce;
    registry.mega_nonce = mega_nonce;
    registry.capabilities = empty_capabilities();
    registry.capability_weights = zero_weights();
    registry.authority = authority;
    registry.withdrawal_timelock = withdrawal_timelock;
}

/// Initializes the registry record. Fails, leaving it as it was, when it
/// is already initialized.
pub fn handler(
    registry: &mut Registry,
    authority: Pubkey,
    mint: Pubkey,
    mega_mint: Pubkey,
    nonce: u8,
    mega_nonce: u8,
    withdrawal_timelock: u64,
) -> (r: Result<(), RegistryError>)
    ensures
        match check(old(registry)@) {
            Ok(_) => r is Ok && final(registry)@ == apply(
                authority,
                mint,
                mega_mint,
                nonce,
                mega_nonce,
                withdrawal_timelock,
            ) && final(registry).wf(),
            Err(e) => r == Err::<(), RegistryError>(e) && final(registry)@ == old(registry)@,
        },
{
    match access_control(registry) {
        Ok(_) => {},
        Err(e) => {
            return Err(e);
        },
    }
    state_transition(registry, authority, mint, mega_mint, nonce, mega_nonce, withdrawal_timelock);
    Ok(())
}

} // verus!
