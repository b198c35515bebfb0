//! What an instruction handler is given besides its arguments, and what a
//! call into another program is given.

use crate::accounts::{
    account_meta, meta_of, AccountInfo, AccountMeta, Accounts, ToAccountInfos, ToAccountMetas,
};
use crate::address::Address;
use std::collections::BTreeMap;
use vstd::prelude::*;

verus! {

/// What a handler is given besides its arguments.
pub struct Context<'a, 'b, 'c, T> {
    /// The program that is running.
    pub program_id: &'a Address,
    /// The accounts of the instruction, checked and read.
    pub accounts: &'b mut T,
    /// The accounts that were given beyond these. Nothing about them was
    /// checked.
    pub remaining_accounts: &'c [AccountInfo],
    /// The bumps that the checks found, by the name of the field.
    pub bumps: BTreeMap<String, u8>,
}

impl<'a, 'b, 'c, T: Accounts> Context<'a, 'b, 'c, T> {
    pub fn new(
        program_id: &'a Address,
        accounts: &'b mut T,
        remaining_accounts: &'c [AccountInfo],
        bumps: BTreeMap<String, u8>,
    ) -> (r: Self)
        ensures
            r.program_id == program_id,
            *r.accounts == *old(accounts),
            *final(accounts) == *final(r.accounts),
            r.remaining_accounts@ == remaining_accounts@,
            r.bumps == bumps,
    {
        Self { program_id, accounts, remaining_accounts, bumps }
    }
}

/// What a call into another program is given: the accounts of the call, the
/// program that is called, and the seeds of the derived addresses that sign.
pub struct CpiContext<'a, 'b, 'c, T: ToAccountMetas + ToAccountInfos> {
    pub accounts: T,
    pub remaining_accounts: Vec<AccountInfo>,
    pub program: AccountInfo,
    pub signer_seeds: &'a [&'b [&'c [u8]]],
}

/// The names of a list of handles in an instruction for another program:
/// each signs and is writable as its handle says.
pub open spec fn remaining_metas(remaining: Seq<AccountInfo>) -> Seq<AccountMeta> {
    Seq::new(remaining.len(), |i: int| meta_of(remaining[i], remaining[i].is_signer))
}

impl<'a, 'b, 'c, T: ToAccountMetas + ToAccountInfos> CpiContext<'a, 'b, 'c, T> {
    /// A call that no derived address signs.
    pub fn new(program: AccountInfo, accounts: T) -> (r: Self)
        ensures
            r.accounts == accounts,
            r.program == program,
            r.remaining_accounts@ == Seq::<AccountInfo>::empty(),
            r.signer_seeds@.len() == 0,
    {
        Self { accounts, program, remaining_accounts: Vec::new(), signer_seeds: &[] }
    }

    /// A call that the derived addresses of the given seeds sign.
    #[must_use]
    pub fn new_with_signer(program: AccountInfo, accounts: T, signer_seeds: &'a [&'b [&'c [u8]]]) -> (r: Self)
        ensures
            r.accounts == accounts,
            r.program == program,
            r.remaining_accounts@ == Seq::<AccountInfo>::empty(),
            r.signer_seeds == signer_seeds,
    {
        Self { accounts, program, signer_seeds, remaining_accounts: Vec::new() }
    }

    /// The same call, signed by the derived addresses of the given seeds.
    #[must_use]
    pub fn with_signer(self, signer_seeds: &'a [&'b [&'c [u8]]]) -> (r: Self)
        ensures
            r.accounts == self.accounts,
            r.program == self.program,
            r.remaining_accounts == self.remaining_accounts,
            r.signer_seeds == signer_seeds,
    {
        let mut r = self;
        r.signer_seeds = signer_seeds;
        r
    }

    /// The same call, with the given accounts beyond its own.
    #[must_use]
    pub fn with_remaining_accounts(self, ra: Vec<AccountInfo>) -> (r: Self)
        ensures
            r.accounts == self.accounts,
            r.program == self.program,
            r.remaining_accounts == ra,
            r.signer_seeds == self.signer_seeds,
    {
        let mut r = self;
        r.remaining_accounts = ra;
        r
    }
}

impl<T: ToAccountInfos + ToAccountMetas> ToAccountInfos for CpiContext<'_, '_, '_, T> {
    /// The handles of the call: those of its accounts, the remaining ones,
    /// and the program.
    open spec fn account_infos(&self) -> Seq<AccountInfo> {
        self.accounts.account_infos() + self.remaining_accounts@ + seq![self.program]
    }

    fn to_account_infos(&self) -> (r: Vec<AccountInfo>) {
        let mut infos = self.accounts.to_account_infos();
        let ghost own = infos@;
        let mut i: usize = 0;
        while i < self.remaining_accounts.len()
            invariant
                i <= self.remaining_accounts.len(),
                infos@ == own + self.remaining_accounts@.take(i as int),
            decreases self.remaining_accounts.len() - i,
        {
            infos.push(self.remaining_accounts[i]);
            assert(infos@ =~= own + self.remaining_accounts@.take(i + 1));
            i += 1;
        }
        assert(self.remaining_accounts@.take(i as int) =~= self.remaining_accounts@);
        infos.push(self.program);
        infos
    }
}

impl<T: ToAccountInfos + ToAccountMetas> ToAccountMetas for CpiContext<'_, '_, '_, T> {
    /// The names of the accounts of the call: those of its own accounts, and
    /// the remaining ones as their handles say.
    open spec fn account_metas(&self, is_signer: Option<bool>) -> Seq<AccountMeta> {
        self.accounts.account_metas(is_signer) + remaining_metas(self.remaining_accounts@)
    }

    fn to_account_metas(&self, is_signer: Option<bool>) -> (r: Vec<AccountMeta>) {
        let mut metas = self.accounts.to_account_metas(is_signer);
        let ghost own = metas@;
        let mut i: usize = 0;
        while i < self.remaining_accounts.len()
            invariant
                i <= self.remaining_accounts.len(),
                metas@ == own + remaining_metas(self.remaining_accounts@).take(i as int),
            decreases self.remaining_accounts.len() - i,
        {
            let acc = &self.remaining_accounts[i];
            metas.push(account_meta(acc, acc.is_signer));
            assert(metas@ =~= own + remaining_metas(self.remaining_accounts@).take(i + 1));
            i += 1;
        }
        assert(remaining_metas(self.remaining_accounts@).take(i as int) =~= remaining_metas(
            self.remaining_accounts@,
        ));
        metas
    }
}

/// What a call into a state instruction of another program is given
/// (legacy): the state account besides what every call is given.
pub struct CpiStateContext<'a, 'b, 'c, T: Accounts> {
    state: AccountInfo,
    cpi_ctx: CpiContext<'a, 'b, 'c, T>,
}

impl<'a, 'b, 'c, T: Accounts> CpiStateContext<'a, 'b, 'c, T> {
    pub closed spec fn spec_state(&self) -> AccountInfo {
        self.state
    }

    pub closed spec fn spec_cpi_ctx(&self) -> CpiContext<'a, 'b, 'c, T> {
        self.cpi_ctx
    }

    pub fn new(program: AccountInfo, state: AccountInfo, accounts: T) -> (r: Self)
        ensures
            r.spec_state() == state,
            r.spec_cpi_ctx().accounts == accounts,
            r.spec_cpi_ctx().program == program,
            r.spec_cpi_ctx().remaining_accounts@ == Seq::<AccountInfo>::empty(),
            r.spec_cpi_ctx().signer_seeds@.len() == 0,
    {
        Self {
            state,
            cpi_ctx: CpiContext {
                accounts,
                program,
                signer_seeds: &[],
                remaining_accounts: Vec::new(),
            },
        }
    }

    pub fn new_with_signer(
        program: AccountInfo,
        state: AccountInfo,
        accounts: T,
        signer_seeds: &'a [&'b [&'c [u8]]],
    ) -> (r: Self)
        ensures
            r.spec_state() == state,
            r.spec_cpi_ctx().accounts == accounts,
            r.spec_cpi_ctx().program == program,
            r.spec_cpi_ctx().remaining_accounts@ == Seq::<AccountInfo>::empty(),
            r.spec_cpi_ctx().signer_seeds == signer_seeds,
    {
        Self {
            state,
            cpi_ctx: CpiContext { accounts, program, signer_seeds, remaining_accounts: Vec::new() },
        }
    }

    #[must_use]
    pub fn with_signer(self, signer_seeds: &'a [&'b [&'c [u8]]]) -> (r: Self)
        ensures
            r.spec_state() == self.spec_state(),
            r.spec_cpi_ctx().accounts == self.spec_cpi_ctx().accounts,
            r.spec_cpi_ctx().program == self.spec_cpi_ctx().program,
            r.spec_cpi_ctx().remaining_accounts == self.spec_cpi_ctx().remaining_accounts,
            r.spec_cpi_ctx().signer_seeds == signer_seeds,
    {
        let CpiStateContext { state, cpi_ctx } = self;
        CpiStateContext { state, cpi_ctx: cpi_ctx.with_signer(signer_seeds) }
    }

    /// The program that is called.
    pub fn program(&self) -> (r: &AccountInfo)
        ensures
            *r == self.spec_cpi_ctx().program,
    {
        &self.cpi_ctx.program
    }

    /// The seeds of the derived addresses that sign the call.
    pub fn signer_seeds(&self) -> (r: &[&[&[u8]]])
        ensures
            r == self.spec_cpi_ctx().signer_seeds,
    {
        self.cpi_ctx.signer_seeds
    }
}

impl<'a, 'b, 'c, T: Accounts> ToAccountMetas for CpiStateContext<'a, 'b, 'c, T> {
    /// The names of the accounts of the call: the state account first, which
    /// never signs, then the accounts of the call.
    open spec fn account_metas(&self, is_signer: Option<bool>) -> Seq<AccountMeta> {
        seq![meta_of(self.spec_state(), false)] + self.spec_cpi_ctx().accounts.account_metas(is_signer)
    }

    fn to_account_metas(&self, is_signer: Option<bool>) -> (r: Vec<AccountMeta>) {
        // The state account is always first for state instructions.
        let mut metas: Vec<AccountMeta> = Vec::new();
        metas.push(account_meta(&self.state, false));
        let mut own = self.cpi_ctx.accounts.to_account_metas(is_signer);
        metas.append(&mut own);
        assert(metas@ =~= self.account_metas(is_signer));
        metas
    }
}

impl<'a, 'b, 'c, T: Accounts> ToAccountInfos for CpiStateContext<'a, 'b, 'c, T> {
    /// The handles of the call: those of its accounts, the state account,
    /// and the program.
    open spec fn account_infos(&self) -> Seq<AccountInfo> {
        self.spec_cpi_ctx().accounts.account_infos() + seq![self.spec_state(), self.spec_cpi_ctx().program]
    }

    fn to_account_infos(&self) -> (r: Vec<AccountInfo>) {
        let mut infos = self.cpi_ctx.accounts.to_account_infos();
        infos.push(self.state);
        infos.push(self.cpi_ctx.program);
        assert(infos@ =~= self.account_infos());
        infos
    }
}

} // verus!
