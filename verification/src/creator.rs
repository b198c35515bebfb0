//! The account creator and the initializer strategies as they run: from the
//! live state of the target account to the invocations of other programs
//! that bring it to the wanted state.
//!
//! Nothing here performs an invocation. The host issues each one in the
//! order given and aborts the instruction at the first that fails.

use crate::address::{system_program, system_program_bytes, Address};
use vstd::prelude::*;

verus! {

/// The size of the header that stands before the content of every
/// program-owned account, in bytes.
pub const ACCOUNT_HEADER_LEN: u64 = 8;

/// The size of a program-owned account: the declared size where one is
/// given; otherwise the header and the payload, which is the serialized
/// default value of the account type or, for a zero-copy account, its fixed
/// layout.
pub open spec fn account_space(explicit: Option<u64>, payload_len: u64) -> u64 {
    match explicit {
        Some(s) => s,
        None => (ACCOUNT_HEADER_LEN + payload_len) as u64,
    }
}

/// Computes the size of a program-owned account.
pub fn program_space(explicit: Option<u64>, payload_len: u64) -> (r: u64)
    requires
        explicit is None ==> payload_len <= u64::MAX - ACCOUNT_HEADER_LEN,
    ensures
        r == account_space(explicit, payload_len),
{
    match explicit {
        Some(s) => s,
        None => ACCOUNT_HEADER_LEN + payload_len,
    }
}

/// Whether an initializer runs: always for `init`; for `init_if_needed` only
/// while the account still belongs to the system program.
pub open spec fn initializer_runs(if_needed: bool, target_owner: Address) -> bool {
    !if_needed || target_owner@ == system_program_bytes()
}

/// Decides whether an initializer runs.
pub fn needs_initialization(if_needed: bool, target_owner: &Address) -> (r: bool)
    ensures
        r == initializer_runs(if_needed, *target_owner),
{
    !if_needed || target_owner.same(&system_program())
}

/// The size of a token account, in bytes.
pub const TOKEN_ACCOUNT_LEN: u64 = 165;

/// The size of a mint, in bytes.
pub const MINT_LEN: u64 = 82;

/// A call into another program.
#[derive(Clone, Copy, Debug, PartialEq, Eq)]
pub enum Call {
    /// System program: create `to` with `lamports` taken from `from`,
    /// `space` bytes of data and the owner tag `owner`.
    CreateAccount { from: Address, to: Address, lamports: u64, space: u64, owner: Address },
    /// System program: move `lamports` from `from` to `to`.
    Transfer { from: Address, to: Address, lamports: u64 },
    /// System program: give `account` `space` bytes of data.
    Allocate { account: Address, space: u64 },
    /// System program: set the owner tag of `account`.
    Assign { account: Address, owner: Address },
    /// Token program: make `account` a token account of `mint` under
    /// `authority`.
    InitializeAccount { token_program: Address, account: Address, mint: Address, authority: Address },
    /// Token program: make `mint` a mint.
    InitializeMint {
        token_program: Address,
        mint: Address,
        decimals: u8,
        authority: Address,
        freeze_authority: Option<Address>,
    },
    /// Associated-token program: create and set up `associated_token`, the
    /// token account of `authority` for `mint`, paid for by `payer` and
    /// owned by the token program.
    CreateAssociatedToken {
        payer: Address,
        associated_token: Address,
        authority: Address,
        mint: Address,
        token_program: Address,
    },
}

/// One invocation: a call, and the seeds of the derived address that signs
/// it. The signature holds for this one call only. Without seeds no derived
/// address signs: the call carries the signatures of the transaction alone.
#[derive(Clone, Debug, PartialEq, Eq)]
pub struct Invocation {
    pub call: Call,
    pub signer_seeds: Option<Vec<Vec<u8>>>,
}

/// `Invocation` as contracts see it.
pub struct InvocationView {
    pub call: Call,
    pub signer_seeds: Option<Seq<Seq<u8>>>,
}

impl DeepView for Invocation {
    type V = InvocationView;

    open spec fn deep_view(&self) -> InvocationView {
        InvocationView { call: self.call, signer_seeds: self.signer_seeds.deep_view() }
    }
}

/// Copies a list of seeds.
pub fn clone_seeds(seeds: &Vec<Vec<u8>>) -> (r: Vec<Vec<u8>>)
    ensures
        r.deep_view() == seeds.deep_view(),
{
    let mut r: Vec<Vec<u8>> = Vec::new();
    let mut i: usize = 0;
    while i < seeds.len()
        invariant
            i <= seeds.len(),
            r.len() == i,
            forall|j: int| 0 <= j < i ==> r[j]@ == seeds[j]@,
        decreases seeds.len() - i,
    {
        let seed = seeds[i].clone();
        assert(seed@ == seeds[i as int]@);
        r.push(seed);
        i += 1;
    }
    assert forall|j: int| 0 <= j < r.len() implies r[j].deep_view() == seeds[j].deep_view() by {
        assert(r[j].deep_view() =~= seeds[j].deep_view());
    }
    assert(r.deep_view() =~= seeds.deep_view());
    r
}

fn clone_signer(signer: &Option<Vec<Vec<u8>>>) -> (r: Option<Vec<Vec<u8>>>)
    ensures
        r.deep_view() == signer.deep_view(),
{
    match signer {
        Some(seeds) => Some(clone_seeds(seeds)),
        None => None,
    }
}

fn push_invocation(v: &mut Vec<Invocation>, call: Call, signer_seeds: Option<Vec<Vec<u8>>>)
    ensures
        final(v).deep_view() == old(v).deep_view().push(
            InvocationView { call, signer_seeds: signer_seeds.deep_view() },
        ),
{
    v.push(Invocation { call, signer_seeds });
    assert(v.deep_view() =~= old(v).deep_view().push(
        InvocationView { call, signer_seeds: signer_seeds.deep_view() },
    ));
}

/// What the account creator is asked for, with the live balance of the
/// target: `min_balance` is the minimum balance for rent exemption at
/// `space` bytes.
#[derive(Clone, Debug, PartialEq, Eq)]
pub struct Creation {
    pub payer: Address,
    pub target: Address,
    pub current_lamports: u64,
    pub min_balance: u64,
    pub space: u64,
    pub owner: Address,
    pub signer_seeds: Option<Vec<Vec<u8>>>,
}

/// `Creation` as contracts see it.
pub struct CreationView {
    pub payer: Address,
    pub target: Address,
    pub current_lamports: u64,
    pub min_balance: u64,
    pub space: u64,
    pub owner: Address,
    pub signer_seeds: Option<Seq<Seq<u8>>>,
}

impl DeepView for Creation {
    type V = CreationView;

    open spec fn deep_view(&self) -> CreationView {
        CreationView {
            payer: self.payer,
            target: self.target,
            current_lamports: self.current_lamports,
            min_balance: self.min_balance,
            space: self.space,
            owner: self.owner,
            signer_seeds: self.signer_seeds.deep_view(),
        }
    }
}

/// What a balance lacks for rent exemption.
pub open spec fn shortfall(min_balance: u64, current_lamports: u64) -> u64 {
    if current_lamports < min_balance {
        (min_balance - current_lamports) as u64
    } else {
        0
    }
}

/// The invocations of the account creator.
///
/// - A target without balance is created in one signed call, funded with
///   exactly the minimum balance.
/// - A target that holds a balance already cannot be created: the payer
///   transfers the shortfall, if there is one, and the target is then
///   allocated and assigned, each in a signed call. The transfer is signed by
///   the payer alone.
pub open spec fn creation_calls(c: CreationView) -> Seq<InvocationView> {
    if c.current_lamports == 0 {
        seq![
            InvocationView {
                call: Call::CreateAccount {
                    from: c.payer,
                    to: c.target,
                    lamports: c.min_balance,
                    space: c.space,
                    owner: c.owner,
                },
                signer_seeds: c.signer_seeds,
            },
        ]
    } else {
        let transfer = if shortfall(c.min_balance, c.current_lamports) > 0 {
            seq![
                InvocationView {
                    call: Call::Transfer {
                        from: c.payer,
                        to: c.target,
                        lamports: shortfall(c.min_balance, c.current_lamports),
                    },
                    signer_seeds: None,
                },
            ]
        } else {
            seq![]
        };
        transfer + seq![
            InvocationView {
                call: Call::Allocate { account: c.target, space: c.space },
                signer_seeds: c.signer_seeds,
            },
            InvocationView {
                call: Call::Assign { account: c.target, owner: c.owner },
                signer_seeds: c.signer_seeds,
            },
        ]
    }
}

/// Decides the invocations that bring the target to `space` bytes, funded
/// to rent exemption and owned by `owner`.
pub fn create_account(c: &Creation) -> (r: Vec<Invocation>)
    ensures
        r.deep_view() == creation_calls(c.deep_view()),
{
    let mut calls: Vec<Invocation> = Vec::new();
    assert(calls.deep_view() =~= Seq::<InvocationView>::empty());
    if c.current_lamports == 0 {
        push_invocation(
            &mut calls,
            Call::CreateAccount {
                from: c.payer,
                to: c.target,
                lamports: c.min_balance,
                space: c.space,
                owner: c.owner,
            },
            clone_signer(&c.signer_seeds),
        );
        assert(calls.deep_view() =~= creation_calls(c.deep_view()));
    } else {
        // Fund the account for rent exemption.
        let floor: u64 = if c.min_balance > 1 {
            c.min_balance
        } else {
            1
        };
        let required_lamports: u64 = if floor > c.current_lamports {
            floor - c.current_lamports
        } else {
            0
        };
        assert(required_lamports == shortfall(c.min_balance, c.current_lamports));
        if required_lamports > 0 {
            push_invocation(
                &mut calls,
                Call::Transfer { from: c.payer, to: c.target, lamports: required_lamports },
                None,
            );
        }
        push_invocation(
            &mut calls,
            Call::Allocate { account: c.target, space: c.space },
            clone_signer(&c.signer_seeds),
        );
        push_invocation(
            &mut calls,
            Call::Assign { account: c.target, owner: c.owner },
            clone_signer(&c.signer_seeds),
        );
        assert(calls.deep_view() =~= creation_calls(c.deep_view()));
    }
    calls
}

/// What an initialization kind sets up, with every address resolved.
#[derive(Clone, Copy, Debug, PartialEq, Eq)]
pub enum Setup {
    /// An account of `space` bytes owned by `owner`.
    Program { space: u64, owner: Address },
    /// A token account of `mint` under `authority`.
    Token { token_program: Address, mint: Address, authority: Address },
    /// A mint.
    Mint { token_program: Address, decimals: u8, authority: Address, freeze_authority: Option<Address> },
    /// The associated token account of `authority` for `mint`.
    AssociatedToken { token_program: Address, mint: Address, authority: Address },
}

impl Setup {
    /// The size of the account that is set up. The associated-token program
    /// creates its account itself, as a token account.
    pub open spec fn spec_space(self) -> u64 {
        match self {
            Setup::Program { space, .. } => space,
            Setup::Token { .. } => TOKEN_ACCOUNT_LEN,
            Setup::Mint { .. } => MINT_LEN,
            Setup::AssociatedToken { .. } => TOKEN_ACCOUNT_LEN,
        }
    }

    /// The owner tag of the account once it is set up.
    pub open spec fn spec_owner(self) -> Address {
        match self {
            Setup::Program { owner, .. } => owner,
            Setup::Token { token_program, .. } => token_program,
            Setup::Mint { token_program, .. } => token_program,
            Setup::AssociatedToken { token_program, .. } => token_program,
        }
    }

    /// The size of the account that is set up: the host takes the minimum
    /// balance for this size.
    pub fn space(&self) -> (r: u64)
        ensures
            r == self.spec_space(),
    {
        match self {
            Setup::Program { space, .. } => *space,
            Setup::Token { .. } => TOKEN_ACCOUNT_LEN,
            Setup::Mint { .. } => MINT_LEN,
            Setup::AssociatedToken { .. } => TOKEN_ACCOUNT_LEN,
        }
    }

    /// The owner tag of the account once it is set up.
    pub fn owner(&self) -> (r: Address)
        ensures
            r == self.spec_owner(),
    {
        match self {
            Setup::Program { owner, .. } => *owner,
            Setup::Token { token_program, .. } => *token_program,
            Setup::Mint { token_program, .. } => *token_program,
            Setup::AssociatedToken { token_program, .. } => *token_program,
        }
    }
}

/// One run of an initializer against the live state of its target:
/// `target_owner` and `target_lamports` are the owner tag and the balance of
/// the target as they are now, `min_balance` the minimum balance for rent
/// exemption at the size of the setup.
#[derive(Clone, Debug, PartialEq, Eq)]
pub struct Initialization {
    pub if_needed: bool,
    pub target: Address,
    pub target_owner: Address,
    pub target_lamports: u64,
    pub payer: Address,
    pub min_balance: u64,
    pub signer_seeds: Option<Vec<Vec<u8>>>,
    pub setup: Setup,
}

/// `Initialization` as contracts see it.
pub struct InitializationView {
    pub if_needed: bool,
    pub target: Address,
    pub target_owner: Address,
    pub target_lamports: u64,
    pub payer: Address,
    pub min_balance: u64,
    pub signer_seeds: Option<Seq<Seq<u8>>>,
    pub setup: Setup,
}

impl DeepView for Initialization {
    type V = InitializationView;

    open spec fn deep_view(&self) -> InitializationView {
        InitializationView {
            if_needed: self.if_needed,
            target: self.target,
            target_owner: self.target_owner,
            target_lamports: self.target_lamports,
            payer: self.payer,
            min_balance: self.min_balance,
            signer_seeds: self.signer_seeds.deep_view(),
            setup: self.setup,
        }
    }
}

impl InitializationView {
    /// Whether the initializer runs: always for `init`; for `init_if_needed`
    /// only while the account still belongs to the system program.
    pub open spec fn runs(self) -> bool {
        initializer_runs(self.if_needed, self.target_owner)
    }

    /// What the initializer asks of the account creator.
    pub open spec fn creation(self) -> CreationView {
        CreationView {
            payer: self.payer,
            target: self.target,
            current_lamports: self.target_lamports,
            min_balance: self.min_balance,
            space: self.setup.spec_space(),
            owner: self.setup.spec_owner(),
            signer_seeds: self.signer_seeds,
        }
    }
}

/// The call with which a kind sets up its account once it exists; none for
/// a program-owned account.
pub open spec fn setup_calls(i: InitializationView) -> Seq<InvocationView> {
    match i.setup {
        Setup::Program { .. } => seq![],
        Setup::Token { token_program, mint, authority } => seq![
            InvocationView {
                call: Call::InitializeAccount { token_program, account: i.target, mint, authority },
                signer_seeds: None,
            },
        ],
        Setup::Mint { token_program, decimals, authority, freeze_authority } => seq![
            InvocationView {
                call: Call::InitializeMint {
                    token_program,
                    mint: i.target,
                    decimals,
                    authority,
                    freeze_authority,
                },
                signer_seeds: None,
            },
        ],
        Setup::AssociatedToken { token_program, mint, authority } => seq![
            InvocationView {
                call: Call::CreateAssociatedToken {
                    payer: i.payer,
                    associated_token: i.target,
                    authority,
                    mint,
                    token_program,
                },
                signer_seeds: None,
            },
        ],
    }
}

/// The invocations of one run of an initializer: none where it does not run;
/// else the account creator's, followed by the setup call of the kind. The
/// associated-token program creates its account itself, so the account
/// creator is not used for it.
pub open spec fn initialization_calls(i: InitializationView) -> Seq<InvocationView> {
    if !i.runs() {
        seq![]
    } else if i.setup is AssociatedToken {
        setup_calls(i)
    } else {
        creation_calls(i.creation()) + setup_calls(i)
    }
}

/// Decides the invocations of one run of an initializer.
pub fn initialize(i: &Initialization) -> (r: Vec<Invocation>)
    ensures
        r.deep_view() == initialization_calls(i.deep_view()),
{
    if !needs_initialization(i.if_needed, &i.target_owner) {
        let calls: Vec<Invocation> = Vec::new();
        assert(calls.deep_view() =~= Seq::<InvocationView>::empty());
        return calls;
    }
    match i.setup {
        Setup::AssociatedToken { token_program, mint, authority } => {
            let mut calls: Vec<Invocation> = Vec::new();
            assert(calls.deep_view() =~= Seq::<InvocationView>::empty());
            push_invocation(
                &mut calls,
                Call::CreateAssociatedToken {
                    payer: i.payer,
                    associated_token: i.target,
                    authority,
                    mint,
                    token_program,
                },
                None,
            );
            assert(calls.deep_view() =~= initialization_calls(i.deep_view()));
            calls
        },
        _ => {
            let creation = Creation {
                payer: i.payer,
                target: i.target,
                current_lamports: i.target_lamports,
                min_balance: i.min_balance,
                space: i.setup.space(),
                owner: i.setup.owner(),
                signer_seeds: clone_signer(&i.signer_seeds),
            };
            let mut calls = create_account(&creation);
            let ghost created = calls.deep_view();
            match i.setup {
                Setup::Token { token_program, mint, authority } => {
                    push_invocation(
                        &mut calls,
                        Call::InitializeAccount { token_program, account: i.target, mint, authority },
                        None,
                    );
                },
                Setup::Mint { token_program, decimals, authority, freeze_authority } => {
                    push_invocation(
                        &mut calls,
                        Call::InitializeMint {
                            token_program,
                            mint: i.target,
                            decimals,
                            authority,
                            freeze_authority,
                        },
                        None,
                    );
                },
                _ => {},
            }
            assert(calls.deep_view() =~= created + setup_calls(i.deep_view()));
            calls
        },
    }
}

/// What the host keeps of an account: its balance, the size of its data
/// and its owner tag.
pub struct AccountState {
    pub lamports: nat,
    pub space: u64,
    pub owner: Address,
}

/// The state of the account `target` after the host has performed one call
/// with success, given its state before. Creation sets balance, size and
/// owner; a transfer to the account adds to its balance; allocation sets the
/// size and assignment the owner; the associated-token program creates a
/// token account and hands it to the token program. The set-up calls of the
/// token program leave the three untouched.
pub open spec fn after_call(call: Call, target: Address, before: AccountState) -> AccountState {
    match call {
        Call::CreateAccount { to, lamports, space, owner, .. } => if to == target {
            AccountState { lamports: (before.lamports + lamports) as nat, space, owner }
        } else {
            before
        },
        Call::Transfer { to, lamports, .. } => if to == target {
            AccountState { lamports: (before.lamports + lamports) as nat, ..before }
        } else {
            before
        },
        Call::Allocate { account, space } => if account == target {
            AccountState { space, ..before }
        } else {
            before
        },
        Call::Assign { account, owner } => if account == target {
            AccountState { owner, ..before }
        } else {
            before
        },
        Call::CreateAssociatedToken { associated_token, token_program, .. } => if associated_token
            == target {
            AccountState { space: TOKEN_ACCOUNT_LEN, owner: token_program, ..before }
        } else {
            before
        },
        Call::InitializeAccount { .. } => before,
        Call::InitializeMint { .. } => before,
    }
}

/// The state of the account `target` after the host has performed the
/// invocations in order, each with success.
pub open spec fn after_calls(calls: Seq<InvocationView>, target: Address, before: AccountState) -> AccountState
    decreases calls.len(),
{
    if calls.len() == 0 {
        before
    } else {
        after_call(calls.last().call, target, after_calls(calls.drop_last(), target, before))
    }
}

/// The account creator keeps its promise: once its invocations are
/// performed, the target holds at least the minimum balance, has the size
/// and belongs to the owner that were asked for. The balance of an account
/// that was funded beyond the minimum is left as it was.
pub proof fn lemma_created(c: CreationView, before: AccountState)
    requires
        before.lamports == c.current_lamports,
    ensures
        after_calls(creation_calls(c), c.target, before) == (AccountState {
            lamports: if c.current_lamports < c.min_balance {
                c.min_balance as nat
            } else {
                c.current_lamports as nat
            },
            space: c.space,
            owner: c.owner,
        }),
{
    reveal_with_fuel(after_calls, 4);
    let calls = creation_calls(c);
    if c.current_lamports != 0 && shortfall(c.min_balance, c.current_lamports) > 0 {
        assert(calls.len() == 3);
        assert(calls.drop_last().drop_last().drop_last() =~= seq![]);
    } else if c.current_lamports != 0 {
        assert(calls.len() == 2);
        assert(calls.drop_last().drop_last() =~= seq![]);
    } else {
        assert(calls.drop_last() =~= seq![]);
    }
}

/// An initializer that runs leaves its target with the size and the owner
/// tag of its setup.
pub proof fn lemma_initialized(i: InitializationView, before: AccountState)
    requires
        i.runs(),
        before.lamports == i.target_lamports,
    ensures
        after_calls(initialization_calls(i), i.target, before).owner == i.setup.spec_owner(),
        after_calls(initialization_calls(i), i.target, before).space == i.setup.spec_space(),
        !(i.setup is AssociatedToken) ==> after_calls(initialization_calls(i), i.target, before).lamports
            >= i.min_balance,
{
    let calls = initialization_calls(i);
    reveal_with_fuel(after_calls, 2);
    if i.setup is AssociatedToken {
        assert(calls.drop_last() =~= seq![]);
    } else {
        let created = creation_calls(i.creation());
        lemma_created(i.creation(), before);
        if i.setup is Program {
            assert(calls =~= created);
        } else {
            assert(calls.drop_last() =~= created);
        }
    }
}

/// `init_if_needed` is idempotent: run a second time on the account as the
/// first run left it, with nothing else having touched the account, the
/// initializer issues no invocation. This holds wherever the setup hands the
/// account to another owner than the system program.
pub proof fn lemma_init_if_needed_idempotent(
    first: InitializationView,
    second: InitializationView,
    before: AccountState,
)
    requires
        first.if_needed,
        second.if_needed,
        first.setup.spec_owner()@ != system_program_bytes(),
        before.owner == first.target_owner,
        before.lamports == first.target_lamports,
        second.target == first.target,
        second.target_owner == after_calls(initialization_calls(first), first.target, before).owner,
    ensures
        initialization_calls(second) == Seq::<InvocationView>::empty(),
{
    if first.runs() {
        lemma_initialized(first, before);
    } else {
        assert(initialization_calls(first) =~= seq![]);
    }
}

} // verus!
