//! What the compiler emits: for each constraint one check, in a form that
//! still names accounts and expressions by their source text.

use crate::errors::{ErrorExpr, ErrorExprView};
use crate::model::{clone_opt_text, clone_texts, Text};
use vstd::prelude::*;

verus! {

/// How the seed list of a `seeds` check is completed.
#[derive(Clone, Debug, PartialEq, Eq)]
pub enum Bump {
    /// No bump was declared: the canonical bump is searched for and used.
    Canonical,
    /// The declared bump is used as it is; the derivation fails where it
    /// does not lead off the curve.
    Given(String),
    /// The field is being initialized with a declared bump: the canonical
    /// derivation is made, and the declared bump must be the canonical one.
    GivenCanonical(String),
}

/// `Bump` as contracts see it.
pub enum BumpView {
    Canonical,
    Given(Text),
    GivenCanonical(Text),
}

impl DeepView for Bump {
    type V = BumpView;

    open spec fn deep_view(&self) -> BumpView {
        match self {
            Bump::Canonical => BumpView::Canonical,
            Bump::Given(b) => BumpView::Given(b@),
            Bump::GivenCanonical(b) => BumpView::GivenCanonical(b@),
        }
    }
}

/// The seeds by which a derived address signs the creation of its own
/// account. Without a declared bump the canonical one is searched for.
#[derive(Debug, PartialEq, Eq)]
pub struct SignerSeeds {
    pub seeds: Vec<String>,
    pub bump: Option<String>,
}

/// `SignerSeeds` as contracts see it.
pub struct SignerSeedsView {
    pub seeds: Seq<Text>,
    pub bump: Option<Text>,
}

impl DeepView for SignerSeeds {
    type V = SignerSeedsView;

    open spec fn deep_view(&self) -> SignerSeedsView {
        SignerSeedsView { seeds: self.seeds.deep_view(), bump: self.bump.deep_view() }
    }
}

impl Clone for SignerSeeds {
    fn clone(&self) -> (r: Self)
        ensures
            r.deep_view() == self.deep_view(),
    {
        SignerSeeds { seeds: clone_texts(&self.seeds), bump: clone_opt_text(&self.bump) }
    }
}

/// The size of an account that is created.
#[derive(Clone, Debug, PartialEq, Eq)]
pub enum Space {
    /// The declared size expression.
    Explicit(String),
    /// Eight bytes of header and the serialized default value of the
    /// account type.
    Serialized(String),
    /// Eight bytes of header and the fixed layout of the zero-copy account
    /// type.
    ZeroCopy(String),
    /// The fixed layout of a token account.
    TokenAccount,
    /// The fixed layout of a mint.
    Mint,
}

/// `Space` as contracts see it.
pub enum SpaceView {
    Explicit(Text),
    Serialized(Text),
    ZeroCopy(Text),
    TokenAccount,
    Mint,
}

impl DeepView for Space {
    type V = SpaceView;

    open spec fn deep_view(&self) -> SpaceView {
        match self {
            Space::Explicit(s) => SpaceView::Explicit(s@),
            Space::Serialized(t) => SpaceView::Serialized(t@),
            Space::ZeroCopy(t) => SpaceView::ZeroCopy(t@),
            Space::TokenAccount => SpaceView::TokenAccount,
            Space::Mint => SpaceView::Mint,
        }
    }
}

/// The owner tag that a created account is given.
#[derive(Clone, Debug, PartialEq, Eq)]
pub enum Owner {
    /// The program that is running.
    Program,
    /// The declared owner expression.
    Expr(String),
    /// The token program.
    TokenProgram,
}

/// `Owner` as contracts see it.
pub enum OwnerView {
    Program,
    Expr(Text),
    TokenProgram,
}

impl DeepView for Owner {
    type V = OwnerView;

    open spec fn deep_view(&self) -> OwnerView {
        match self {
            Owner::Program => OwnerView::Program,
            Owner::Expr(o) => OwnerView::Expr(o@),
            Owner::TokenProgram => OwnerView::TokenProgram,
        }
    }
}

/// One use of the shared account creator: bring the account of `field` to
/// `space` bytes, funded for rent exemption and owned by `owner`, signing as
/// the derived address where seeds are given.
#[derive(Clone, Debug, PartialEq, Eq)]
pub struct CreateAccount {
    pub field: String,
    pub space: Space,
    pub owner: Owner,
    pub signer: Option<SignerSeeds>,
}

/// `CreateAccount` as contracts see it.
pub struct CreateAccountView {
    pub field: Text,
    pub space: SpaceView,
    pub owner: OwnerView,
    pub signer: Option<SignerSeedsView>,
}

impl DeepView for CreateAccount {
    type V = CreateAccountView;

    open spec fn deep_view(&self) -> CreateAccountView {
        CreateAccountView {
            field: self.field@,
            space: self.space.deep_view(),
            owner: self.owner.deep_view(),
            signer: self.signer.deep_view(),
        }
    }
}

/// What is done to initialize an account, by kind.
#[derive(Clone, Debug, PartialEq, Eq)]
pub enum Strategy {
    /// Create the account; nothing more.
    Program { create: CreateAccount },
    /// Create the account, then have the token program initialize it as a
    /// token account of `mint` under the authority of `owner`.
    Token { owner: String, mint: String, create: CreateAccount },
    /// Create the account, then have the token program initialize it as a
    /// mint.
    Mint { owner: String, decimals: u8, freeze_authority: Option<String>, create: CreateAccount },
    /// Have the associated-token program create and initialize the account
    /// in one call.
    AssociatedToken { owner: String, mint: String },
}

/// `Strategy` as contracts see it.
pub enum StrategyView {
    Program { create: CreateAccountView },
    Token { owner: Text, mint: Text, create: CreateAccountView },
    Mint { owner: Text, decimals: u8, freeze_authority: Option<Text>, create: CreateAccountView },
    AssociatedToken { owner: Text, mint: Text },
}

impl DeepView for Strategy {
    type V = StrategyView;

    open spec fn deep_view(&self) -> StrategyView {
        match self {
            Strategy::Program { create } => StrategyView::Program { create: create.deep_view() },
            Strategy::Token { owner, mint, create } => StrategyView::Token {
                owner: owner@,
                mint: mint@,
                create: create.deep_view(),
            },
            Strategy::Mint { owner, decimals, freeze_authority, create } => StrategyView::Mint {
                owner: owner@,
                decimals: *decimals,
                freeze_authority: freeze_authority.deep_view(),
                create: create.deep_view(),
            },
            Strategy::AssociatedToken { owner, mint } => StrategyView::AssociatedToken {
                owner: owner@,
                mint: mint@,
            },
        }
    }
}

/// The initialization of one field. With `if_needed` the strategy runs only
/// while the account still belongs to the system program.
#[derive(Clone, Debug, PartialEq, Eq)]
pub struct InitPlan {
    pub field: String,
    pub if_needed: bool,
    pub payer: String,
    pub strategy: Strategy,
}

/// `InitPlan` as contracts see it.
pub struct InitPlanView {
    pub field: Text,
    pub if_needed: bool,
    pub payer: Text,
    pub strategy: StrategyView,
}

impl DeepView for InitPlan {
    type V = InitPlanView;

    open spec fn deep_view(&self) -> InitPlanView {
        InitPlanView {
            field: self.field@,
            if_needed: self.if_needed,
            payer: self.payer@,
            strategy: self.strategy.deep_view(),
        }
    }
}

/// One emitted check. Each variant but `Nothing` and `Init` tests one
/// condition and raises `error` where it does not hold.
#[derive(Clone, Debug, PartialEq, Eq)]
pub enum Check {
    /// Nothing is emitted.
    Nothing,
    /// The first eight bytes of the account's data are zero; the account is
    /// then read without checking its type tag.
    Zeroed { field: String, error: ErrorExpr },
    /// The account is created and set up.
    Init(InitPlan),
    /// The account's key is the address derived from the seeds.
    Seeds { field: String, seeds: Vec<String>, bump: Bump, error: ErrorExpr },
    /// The account's key is the associated token address of the wallet for
    /// the mint.
    AssociatedToken { field: String, wallet: String, mint: String, error: ErrorExpr },
    /// The account is writable.
    Mut { field: String, error: ErrorExpr },
    /// The account signed. `through_handle` is set where the flag is read
    /// from the plain handle under a typed account.
    Signer { field: String, through_handle: bool, error: ErrorExpr },
    /// The field `target` of the account's content is the key of the account
    /// `target`. `load` is set where the content is reached by a load
    /// operation.
    HasOne { field: String, load: bool, target: String, error: ErrorExpr },
    /// The expression taken out of a string literal is true; `warning` is
    /// shown once to the author.
    Literal { condition: String, warning: String, error: ErrorExpr },
    /// The expression is true.
    Raw { condition: String, error: ErrorExpr },
    /// The account's owner tag is the address.
    Owner { field: String, owner: String, error: ErrorExpr },
    /// The account's balance makes it exempt from rent at its size.
    RentExempt { field: String, error: ErrorExpr },
    /// The account is a program.
    Executable { field: String, error: ErrorExpr },
    /// The account is the canonical state account of the program
    /// `program_target` and belongs to it.
    State { field: String, account_ty: String, program_target: String, error: ErrorExpr },
    /// The account is not closed into itself.
    Close { field: String, sol_dest: String, error: ErrorExpr },
    /// The account's key is the address.
    Address { field: String, address: String, error: ErrorExpr },
}

/// `Check` as contracts see it.
pub enum CheckView {
    Nothing,
    Zeroed { field: Text, error: ErrorExprView },
    Init(InitPlanView),
    Seeds { field: Text, seeds: Seq<Text>, bump: BumpView, error: ErrorExprView },
    AssociatedToken { field: Text, wallet: Text, mint: Text, error: ErrorExprView },
    Mut { field: Text, error: ErrorExprView },
    Signer { field: Text, through_handle: bool, error: ErrorExprView },
    HasOne { field: Text, load: bool, target: Text, error: ErrorExprView },
    Literal { condition: Text, warning: Text, error: ErrorExprView },
    Raw { condition: Text, error: ErrorExprView },
    Owner { field: Text, owner: Text, error: ErrorExprView },
    RentExempt { field: Text, error: ErrorExprView },
    Executable { field: Text, error: ErrorExprView },
    State { field: Text, account_ty: Text, program_target: Text, error: ErrorExprView },
    Close { field: Text, sol_dest: Text, error: ErrorExprView },
    Address { field: Text, address: Text, error: ErrorExprView },
}

impl DeepView for Check {
    type V = CheckView;

    open spec fn deep_view(&self) -> CheckView {
        match self {
            Check::Nothing => CheckView::Nothing,
            Check::Zeroed { field, error } => CheckView::Zeroed {
                field: field@,
                error: error.deep_view(),
            },
            Check::Init(plan) => CheckView::Init(plan.deep_view()),
            Check::Seeds { field, seeds, bump, error } => CheckView::Seeds {
                field: field@,
                seeds: seeds.deep_view(),
                bump: bump.deep_view(),
                error: error.deep_view(),
            },
            Check::AssociatedToken { field, wallet, mint, error } => CheckView::AssociatedToken {
                field: field@,
                wallet: wallet@,
                mint: mint@,
                error: error.deep_view(),
            },
            Check::Mut { field, error } => CheckView::Mut { field: field@, error: error.deep_view() },
            Check::Signer { field, through_handle, error } => CheckView::Signer {
                field: field@,
                through_handle: *through_handle,
                error: error.deep_view(),
            },
            Check::HasOne { field, load, target, error } => CheckView::HasOne {
                field: field@,
                load: *load,
                target: target@,
                error: error.deep_view(),
            },
            Check::Literal { condition, warning, error } => CheckView::Literal {
                condition: condition@,
                warning: warning@,
                error: error.deep_view(),
            },
            Check::Raw { condition, error } => CheckView::Raw {
                condition: condition@,
                error: error.deep_view(),
            },
            Check::Owner { field, owner, error } => CheckView::Owner {
                field: field@,
                owner: owner@,
                error: error.deep_view(),
            },
            Check::RentExempt { field, error } => CheckView::RentExempt {
                field: field@,
                error: error.deep_view(),
            },
            Check::Executable { field, error } => CheckView::Executable {
                field: field@,
                error: error.deep_view(),
            },
            Check::State { field, account_ty, program_target, error } => CheckView::State {
                field: field@,
                account_ty: account_ty@,
                program_target: program_target@,
                error: error.deep_view(),
            },
            Check::Close { field, sol_dest, error } => CheckView::Close {
                field: field@,
                sol_dest: sol_dest@,
                error: error.deep_view(),
            },
            Check::Address { field, address, error } => CheckView::Address {
                field: field@,
                address: address@,
                error: error.deep_view(),
            },
        }
    }
}

impl CheckView {
    /// What the check raises where its condition fails; `None` for the
    /// variants that test no condition of their own.
    pub open spec fn error(self) -> Option<ErrorExprView> {
        match self {
            CheckView::Nothing => None,
            CheckView::Init(_) => None,
            CheckView::Zeroed { error, .. } => Some(error),
            CheckView::Seeds { error, .. } => Some(error),
            CheckView::AssociatedToken { error, .. } => Some(error),
            CheckView::Mut { error, .. } => Some(error),
            CheckView::Signer { error, .. } => Some(error),
            CheckView::HasOne { error, .. } => Some(error),
            CheckView::Literal { error, .. } => Some(error),
            CheckView::Raw { error, .. } => Some(error),
            CheckView::Owner { error, .. } => Some(error),
            CheckView::RentExempt { error, .. } => Some(error),
            CheckView::Executable { error, .. } => Some(error),
            CheckView::State { error, .. } => Some(error),
            CheckView::Close { error, .. } => Some(error),
            CheckView::Address { error, .. } => Some(error),
        }
    }
}

impl Check {
    /// What the check raises where its condition fails.
    pub fn error(&self) -> (r: Option<ErrorExpr>)
        ensures
            r.deep_view() == self.deep_view().error(),
    {
        match self {
            Check::Nothing => None,
            Check::Init(_) => None,
            Check::Zeroed { error, .. } => Some(error.clone()),
            Check::Seeds { error, .. } => Some(error.clone()),
            Check::AssociatedToken { error, .. } => Some(error.clone()),
            Check::Mut { error, .. } => Some(error.clone()),
            Check::Signer { error, .. } => Some(error.clone()),
            Check::HasOne { error, .. } => Some(error.clone()),
            Check::Literal { error, .. } => Some(error.clone()),
            Check::Raw { error, .. } => Some(error.clone()),
            Check::Owner { error, .. } => Some(error.clone()),
            Check::RentExempt { error, .. } => Some(error.clone()),
            Check::Executable { error, .. } => Some(error.clone()),
            Check::State { error, .. } => Some(error.clone()),
            Check::Close { error, .. } => Some(error.clone()),
            Check::Address { error, .. } => Some(error.clone()),
        }
    }
}

/// The checks of one field. `load_rent` is set where the sequence reads the
/// rent parameters before its first check.
#[derive(Clone, Debug, PartialEq, Eq)]
pub struct FieldChecks {
    pub load_rent: bool,
    pub checks: Vec<Check>,
}

/// `FieldChecks` as contracts see it.
pub struct FieldChecksView {
    pub load_rent: bool,
    pub checks: Seq<CheckView>,
}

impl DeepView for FieldChecks {
    type V = FieldChecksView;

    open spec fn deep_view(&self) -> FieldChecksView {
        FieldChecksView { load_rent: self.load_rent, checks: self.checks.deep_view() }
    }
}

} // verus!
