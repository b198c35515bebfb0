//! The account type that checks nothing.

use crate::accounts::{
    account_meta, meta_of, AccountError, AccountInfo, AccountMeta, Accounts, AccountsExit,
    ToAccountInfo, ToAccountInfos, ToAccountMetas,
};
use crate::address::Address;
use vstd::prelude::*;

verus! {

/// A plain account handle under a name that says so: nothing about the
/// account is checked.
#[derive(Clone, Copy, Debug, PartialEq, Eq)]
pub struct UncheckedAccount(pub AccountInfo);

impl UncheckedAccount {
    /// Wraps a handle.
    pub fn try_from(acc_info: AccountInfo) -> (r: UncheckedAccount)
        ensures
            r.0 == acc_info,
    {
        UncheckedAccount(acc_info)
    }

    /// The handle.
    pub fn as_ref(&self) -> (r: &AccountInfo)
        ensures
            *r == self.0,
    {
        &self.0
    }
}

impl Accounts for UncheckedAccount {
    /// Takes the first of the accounts that are left: it fails where none is
    /// left, and else leaves the accounts after the first.
    fn try_accounts(_program_id: &Address, accounts: &mut &[AccountInfo], _ix_data: &[u8]) -> (r: Result<
        Self,
        AccountError,
    >)
        ensures
            old(accounts)@.len() == 0 ==> r == Err::<UncheckedAccount, AccountError>(
                AccountError::AccountNotEnoughKeys,
            ) && final(accounts)@ == old(accounts)@,
            old(accounts)@.len() > 0 ==> r == Ok::<UncheckedAccount, AccountError>(
                UncheckedAccount(old(accounts)@[0]),
            ) && final(accounts)@ == old(accounts)@.subrange(1, old(accounts)@.len() as int),
    {
        if accounts.len() == 0 {
            return Err(AccountError::AccountNotEnoughKeys);
        }
        let account = accounts[0];
        *accounts = vstd::slice::slice_subrange(*accounts, 1, accounts.len());
        Ok(UncheckedAccount(account))
    }
}

impl ToAccountMetas for UncheckedAccount {
    open spec fn account_metas(&self, is_signer: Option<bool>) -> Seq<AccountMeta> {
        seq![
            meta_of(
                self.0,
                match is_signer {
                    Some(s) => s,
                    None => self.0.is_signer,
                },
            ),
        ]
    }

    fn to_account_metas(&self, is_signer: Option<bool>) -> (r: Vec<AccountMeta>) {
        let signs = match is_signer {
            Some(s) => s,
            None => self.0.is_signer,
        };
        let meta = account_meta(&self.0, signs);
        let mut metas: Vec<AccountMeta> = Vec::new();
        metas.push(meta);
        assert(metas@ =~= self.account_metas(is_signer));
        metas
    }
}

impl ToAccountInfos for UncheckedAccount {
    open spec fn account_infos(&self) -> Seq<AccountInfo> {
        seq![self.0]
    }

    fn to_account_infos(&self) -> (r: Vec<AccountInfo>) {
        let mut infos: Vec<AccountInfo> = Vec::new();
        infos.push(self.0);
        assert(infos@ =~= seq![self.0]);
        infos
    }
}

impl ToAccountInfo for UncheckedAccount {
    open spec fn account_info(&self) -> AccountInfo {
        self.0
    }

    fn to_account_info(&self) -> (r: AccountInfo) {
        self.0
    }
}

impl AccountsExit for UncheckedAccount {
    /// Nothing is written back.
    fn exit(&self, _program_id: &Address) -> (r: Result<(), AccountError>)
        ensures
            r == Ok::<(), AccountError>(()),
    {
        Ok(())
    }
}

} // verus!
