//! Accounts as an instruction sees them, and what every group of accounts
//! can do.

pub mod unchecked_account;

use crate::address::Address;
use vstd::prelude::*;

verus! {

/// The handle of one account of the running instruction.
#[derive(Clone, Copy, Debug, PartialEq, Eq)]
pub struct AccountInfo {
    pub key: Address,
    pub is_signer: bool,
    pub is_writable: bool,
    pub lamports: u64,
    pub data_len: u64,
    pub owner: Address,
    pub executable: bool,
}

/// How an account is named in an instruction for another program.
#[derive(Clone, Copy, Debug, PartialEq, Eq)]
pub struct AccountMeta {
    pub pubkey: Address,
    pub is_signer: bool,
    pub is_writable: bool,
}

impl AccountMeta {
    /// A writable account.
    pub fn new(pubkey: Address, is_signer: bool) -> (r: AccountMeta)
        ensures
            r == (AccountMeta { pubkey, is_signer, is_writable: true }),
    {
        AccountMeta { pubkey, is_signer, is_writable: true }
    }

    /// A read-only account.
    pub fn new_readonly(pubkey: Address, is_signer: bool) -> (r: AccountMeta)
        ensures
            r == (AccountMeta { pubkey, is_signer, is_writable: false }),
    {
        AccountMeta { pubkey, is_signer, is_writable: false }
    }
}

/// How a handle is named in an instruction for another program: by its key,
/// writable as the handle is, and signing as `is_signer` says.
pub open spec fn meta_of(info: AccountInfo, is_signer: bool) -> AccountMeta {
    AccountMeta { pubkey: info.key, is_signer, is_writable: info.is_writable }
}

/// Names a handle in an instruction for another program.
pub fn account_meta(info: &AccountInfo, is_signer: bool) -> (r: AccountMeta)
    ensures
        r == meta_of(*info, is_signer),
{
    match info.is_writable {
        false => AccountMeta::new_readonly(info.key, is_signer),
        true => AccountMeta::new(info.key, is_signer),
    }
}

/// Why a group of accounts could not be taken from the accounts of an
/// instruction, or an account not be read.
#[derive(Clone, Copy, Debug, PartialEq, Eq, Structural)]
pub enum AccountError {
    /// The instruction has fewer accounts than the group needs.
    AccountNotEnoughKeys,
    /// The account is not the data account of an upgradeable program.
    AccountNotProgramData,
    /// The data of the account cannot be read as what it should hold.
    InvalidAccountData,
}

/// A group of accounts that can be named in an instruction for another
/// program.
pub trait ToAccountMetas {
    /// The names of the accounts of the group, in order. `is_signer`
    /// overrides the signer flag of the accounts where it is given.
    spec fn account_metas(&self, is_signer: Option<bool>) -> Seq<AccountMeta>;

    fn to_account_metas(&self, is_signer: Option<bool>) -> (r: Vec<AccountMeta>)
        ensures
            r@ == self.account_metas(is_signer),
    ;
}

/// A group of accounts that can hand out its handles.
pub trait ToAccountInfos {
    /// The handles of the accounts of the group, in order.
    spec fn account_infos(&self) -> Seq<AccountInfo>;

    fn to_account_infos(&self) -> (r: Vec<AccountInfo>)
        ensures
            r@ == self.account_infos(),
    ;
}

/// A single account that can hand out its handle.
pub trait ToAccountInfo {
    /// The handle of the account.
    spec fn account_info(&self) -> AccountInfo;

    fn to_account_info(&self) -> (r: AccountInfo)
        ensures
            r == self.account_info(),
    ;
}

/// A group of accounts that is taken from the front of the accounts of an
/// instruction.
pub trait Accounts: ToAccountMetas + ToAccountInfos + Sized {
    fn try_accounts(program_id: &Address, accounts: &mut &[AccountInfo], ix_data: &[u8]) -> (r: Result<
        Self,
        AccountError,
    >)
    ;
}

/// What a group of accounts does when the instruction is over.
pub trait AccountsExit {
    fn exit(&self, program_id: &Address) -> (r: Result<(), AccountError>)
    ;
}

} // verus!
