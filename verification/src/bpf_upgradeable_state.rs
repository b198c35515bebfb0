//! The accounts of the upgradeable loader, of which the data account of a
//! program tells who may upgrade it.

use crate::accounts::AccountError;
use crate::address::Address;
use solana_program::bpf_loader_upgradeable;
use vstd::prelude::*;

verus! {

/// What an account of the upgradeable loader holds.
#[derive(Clone, Copy, Debug, PartialEq, Eq)]
pub enum UpgradeableLoaderState {
    /// Nothing yet.
    Uninitialized,
    /// A buffer that a program is written to before it is deployed.
    Buffer { authority_address: Option<Address> },
    /// A program, which points to its data account.
    Program { programdata_address: Address },
    /// The data account of a program: the slot of its last change, and who
    /// may upgrade it.
    ProgramData { slot: u64, upgrade_authority_address: Option<Address> },
}

/// The data account of an upgradeable program.
#[derive(Clone, Copy, Debug, PartialEq, Eq)]
pub struct ProgramData {
    pub slot: u64,
    pub upgrade_authority_address: Option<Address>,
}

/// What the bytes at the front of an account's data decode to as a state of
/// the upgradeable loader, or `None` where they decode to none.
pub uninterp spec fn loader_state(buf: Seq<u8>) -> Option<UpgradeableLoaderState>;

/// Calls `bincode::deserialize` for the loader state of `solana_program`.
/// The result is trusted to be a function of the bytes alone; a failure to
/// decode is reported as `None`.
#[verifier::external_body]
fn deserialize_loader_state(buf: &[u8]) -> (r: Option<UpgradeableLoaderState>)
    ensures
        r == loader_state(buf@),
{
    match bincode::deserialize(buf) {
        Ok(bpf_loader_upgradeable::UpgradeableLoaderState::Uninitialized) => Some(UpgradeableLoaderState::Uninitialized),
        Ok(bpf_loader_upgradeable::UpgradeableLoaderState::Buffer { authority_address }) =>
            Some(UpgradeableLoaderState::Buffer { authority_address: authority_address.map(|k| Address { bytes: k.to_bytes() }) }),
        Ok(bpf_loader_upgradeable::UpgradeableLoaderState::Program { programdata_address }) =>
            Some(UpgradeableLoaderState::Program { programdata_address: Address { bytes: programdata_address.to_bytes() } }),
        Ok(bpf_loader_upgradeable::UpgradeableLoaderState::ProgramData { slot, upgrade_authority_address }) =>
            Some(UpgradeableLoaderState::ProgramData { slot, upgrade_authority_address: upgrade_authority_address.map(|k| Address { bytes: k.to_bytes() }) }),
        Err(_) => None,
    }
}

/// The bytes of the address of the upgradeable loader.
pub open spec fn upgradeable_loader_bytes() -> Seq<u8> {
    seq![
        2u8, 168u8, 246u8, 145u8, 78u8, 136u8, 161u8, 176u8, 226u8, 16u8, 21u8, 62u8, 247u8, 99u8,
        174u8, 43u8, 0u8, 194u8, 185u8, 61u8, 22u8, 193u8, 36u8, 210u8, 192u8, 83u8, 122u8, 16u8,
        4u8, 128u8, 0u8, 0u8,
    ]
}

/// Reads `solana_program::bpf_loader_upgradeable::ID`, the address of the
/// upgradeable loader, which the host crate declares in base 58.
#[verifier::external_body]
fn bpf_loader_upgradeable_id() -> (r: Address)
    ensures
        r@ == upgradeable_loader_bytes(),
{
    Address { bytes: bpf_loader_upgradeable::ID.to_bytes() }
}

/// The state that decoded bytes stand for: bytes that do not decode are
/// invalid account data.
pub open spec fn state_of(decoded: Option<UpgradeableLoaderState>) -> Result<
    UpgradeableLoaderState,
    AccountError,
> {
    match decoded {
        Some(state) => Ok(state),
        None => Err(AccountError::InvalidAccountData),
    }
}

/// The program data that decoded bytes stand for: only the state of a data
/// account is one.
pub open spec fn program_data_of(decoded: Option<UpgradeableLoaderState>) -> Result<
    ProgramData,
    AccountError,
> {
    match decoded {
        Some(UpgradeableLoaderState::ProgramData { slot, upgrade_authority_address }) => Ok(
            ProgramData { slot, upgrade_authority_address },
        ),
        Some(_) => Err(AccountError::AccountNotProgramData),
        None => Err(AccountError::InvalidAccountData),
    }
}

impl UpgradeableLoaderState {
    /// The program that owns the accounts of this kind: the upgradeable
    /// loader.
    pub fn owner() -> (r: Address)
        ensures
            r@ == upgradeable_loader_bytes(),
    {
        bpf_loader_upgradeable_id()
    }

    /// Nothing is written: the loader alone writes these accounts.
    pub fn try_serialize(&self, writer: &mut Vec<u8>) -> (r: Result<(), AccountError>)
        ensures
            r == Ok::<(), AccountError>(()),
            final(writer)@ == old(writer)@,
    {
        Ok(())
    }

    /// Reads the state at the front of the data of an account.
    pub fn try_deserialize(buf: &mut &[u8]) -> (r: Result<UpgradeableLoaderState, AccountError>)
        ensures
            r == state_of(loader_state(old(buf)@)),
            *final(buf) == *old(buf),
    {
        UpgradeableLoaderState::try_deserialize_unchecked(buf)
    }

    /// Reads the state at the front of the data of an account.
    pub fn try_deserialize_unchecked(buf: &mut &[u8]) -> (r: Result<
        UpgradeableLoaderState,
        AccountError,
    >)
        ensures
            r == state_of(loader_state(old(buf)@)),
            *final(buf) == *old(buf),
    {
        match deserialize_loader_state(*buf) {
            Some(state) => Ok(state),
            None => Err(AccountError::InvalidAccountData),
        }
    }
}

impl ProgramData {
    /// The program data in a state of the loader: that of a data account,
    /// and no other.
    pub fn from_state(state: Result<UpgradeableLoaderState, AccountError>) -> (r: Result<
        ProgramData,
        AccountError,
    >)
        ensures
            r == match state {
                Ok(UpgradeableLoaderState::ProgramData { slot, upgrade_authority_address }) => Ok(
                    ProgramData { slot, upgrade_authority_address },
                ),
                Ok(_) => Err(AccountError::AccountNotProgramData),
                Err(e) => Err(e),
            },
    {
        let program_state = match state {
            Ok(state) => state,
            Err(e) => {
                return Err(e);
            },
        };
        match program_state {
            UpgradeableLoaderState::Uninitialized => Err(AccountError::AccountNotProgramData),
            UpgradeableLoaderState::Buffer { authority_address: _ } => Err(
                AccountError::AccountNotProgramData,
            ),
            UpgradeableLoaderState::Program { programdata_address: _ } => Err(
                AccountError::AccountNotProgramData,
            ),
            UpgradeableLoaderState::ProgramData { slot, upgrade_authority_address } => Ok(
                ProgramData { slot, upgrade_authority_address },
            ),
        }
    }

    /// Reads the data account of a program.
    pub fn try_deserialize(buf: &mut &[u8]) -> (r: Result<ProgramData, AccountError>)
        ensures
            r == program_data_of(loader_state(old(buf)@)),
            *final(buf) == *old(buf),
    {
        ProgramData::try_deserialize_unchecked(buf)
    }

    /// Reads the data account of a program.
    pub fn try_deserialize_unchecked(buf: &mut &[u8]) -> (r: Result<ProgramData, AccountError>)
        ensures
            r == program_data_of(loader_state(old(buf)@)),
            *final(buf) == *old(buf),
    {
        let program_state = UpgradeableLoaderState::try_deserialize_unchecked(buf);
        ProgramData::from_state(program_state)
    }

    /// Nothing is written: the loader alone writes these accounts.
    pub fn try_serialize(&self, writer: &mut Vec<u8>) -> (r: Result<(), AccountError>)
        ensures
            r == Ok::<(), AccountError>(()),
            final(writer)@ == old(writer)@,
    {
        Ok(())
    }

    /// The program that owns the accounts of this kind: the upgradeable
    /// loader.
    pub fn owner() -> (r: Address)
        ensures
            r@ == upgradeable_loader_bytes(),
    {
        bpf_loader_upgradeable_id()
    }
}

} // verus!
