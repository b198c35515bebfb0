//! The constraint model: what an author may declare on one account field.
//!
//! Identifiers and expressions are carried as source text. Every type has a
//! mathematical view (`deep_view`) in which text is a sequence of characters
//! and a list is a sequence; the contracts of the compiler speak of views.

use vstd::prelude::*;

verus! {

/// Source text as contracts see it.
pub type Text = Seq<char>;

/// Copies an optional piece of source text.
pub fn clone_opt_text(o: &Option<String>) -> (r: Option<String>)
    ensures
        r.deep_view() == o.deep_view(),
{
    match o {
        Some(s) => Some(s.clone()),
        None => None,
    }
}

/// Copies a list of pieces of source text.
pub fn clone_texts(v: &Vec<String>) -> (r: Vec<String>)
    ensures
        r.deep_view() == v.deep_view(),
{
    let mut r: Vec<String> = Vec::new();
    let mut i: usize = 0;
    while i < v.len()
        invariant
            i <= v.len(),
            r.len() == i,
            forall|j: int| 0 <= j < i ==> r[j]@ == v[j]@,
        decreases v.len() - i,
    {
        r.push(v[i].clone());
        i += 1;
    }
    assert(r.deep_view() =~= v.deep_view());
    r
}

/// `zeroed`: the account must not have been initialized yet.
#[derive(Clone, Copy, Debug, PartialEq, Eq)]
pub struct ConstraintZeroed {}

/// `executable`: the account must be a program.
#[derive(Clone, Copy, Debug, PartialEq, Eq)]
pub struct ConstraintExecutable {}

/// `rent_exempt`: whether the balance is checked against the exemption
/// threshold, or the check is switched off.
#[derive(Clone, Copy, Debug, PartialEq, Eq, Structural)]
pub enum ConstraintRentExempt {
    Enforce,
    Skip,
}

/// `mut`: the account must be writable.
#[derive(Debug, PartialEq, Eq)]
pub struct ConstraintMut {
    pub error: Option<String>,
}

/// `signer`: the account must have signed the transaction.
#[derive(Debug, PartialEq, Eq)]
pub struct ConstraintSigner {
    pub error: Option<String>,
}

/// `dup`: the named field is an intended alias of this one.
#[derive(Debug, PartialEq, Eq)]
pub struct ConstraintDup {
    pub target: String,
}

/// `has_one`: a field of the account's content must hold the key of the
/// account field of the same name.
#[derive(Debug, PartialEq, Eq)]
pub struct ConstraintHasOne {
    pub join_target: String,
    pub error: Option<String>,
}

/// A boolean expression wrapped in a string literal (deprecated).
#[derive(Debug, PartialEq, Eq)]
pub struct ConstraintLiteral {
    pub lit: String,
}

/// `constraint = <expr>`: a boolean expression.
#[derive(Debug, PartialEq, Eq)]
pub struct ConstraintRaw {
    pub raw: String,
    pub error: Option<String>,
}

/// `owner = <expr>`: the account's owner tag.
#[derive(Debug, PartialEq, Eq)]
pub struct ConstraintOwner {
    pub owner_address: String,
    pub error: Option<String>,
}

/// `address = <expr>`: the account's key.
#[derive(Debug, PartialEq, Eq)]
pub struct ConstraintAddress {
    pub address: String,
    pub error: Option<String>,
}

/// `state = <program>`: the account is the canonical state account of the
/// named program (legacy).
#[derive(Debug, PartialEq, Eq)]
pub struct ConstraintState {
    pub program_target: String,
}

/// `close = <destination>`: the account is closed into the destination.
#[derive(Debug, PartialEq, Eq)]
pub struct ConstraintClose {
    pub sol_dest: String,
}

/// `associated_token`: the account is the associated token account of a
/// wallet for a mint.
#[derive(Debug, PartialEq, Eq)]
pub struct ConstraintAssociatedToken {
    pub wallet: String,
    pub mint: String,
}

/// `seeds` with an optional `bump`: the account's key is derived from the
/// seeds. `is_init` is set when the field is also initialized.
#[derive(Debug, PartialEq, Eq)]
pub struct ConstraintSeedsGroup {
    pub is_init: bool,
    pub seeds: Vec<String>,
    pub bump: Option<String>,
}

/// What `init` creates.
#[derive(Debug, PartialEq, Eq)]
#[allow(inconsistent_fields)]
pub enum InitKind {
    Program { owner: Option<String> },
    Token { owner: String, mint: String },
    AssociatedToken { owner: String, mint: String },
    Mint { owner: String, freeze_authority: Option<String>, decimals: u8 },
}

/// `init` or `init_if_needed`, with the payer, the optional explicit size and
/// the optional seeds of the address that signs the creation.
#[derive(Debug, PartialEq, Eq)]
pub struct ConstraintInitGroup {
    pub if_needed: bool,
    pub seeds: Option<ConstraintSeedsGroup>,
    pub payer: String,
    pub space: Option<String>,
    pub kind: InitKind,
}

/// `ConstraintMut` as contracts see it.
pub struct ConstraintMutView {
    pub error: Option<Text>,
}

/// `ConstraintSigner` as contracts see it.
pub struct ConstraintSignerView {
    pub error: Option<Text>,
}

/// `ConstraintDup` as contracts see it.
pub struct ConstraintDupView {
    pub target: Text,
}

/// `ConstraintHasOne` as contracts see it.
pub struct ConstraintHasOneView {
    pub join_target: Text,
    pub error: Option<Text>,
}

/// `ConstraintLiteral` as contracts see it.
pub struct ConstraintLiteralView {
    pub lit: Text,
}

/// `ConstraintRaw` as contracts see it.
pub struct ConstraintRawView {
    pub raw: Text,
    pub error: Option<Text>,
}

/// `ConstraintOwner` as contracts see it.
pub struct ConstraintOwnerView {
    pub owner_address: Text,
    pub error: Option<Text>,
}

/// `ConstraintAddress` as contracts see it.
pub struct ConstraintAddressView {
    pub address: Text,
    pub error: Option<Text>,
}

/// `ConstraintState` as contracts see it.
pub struct ConstraintStateView {
    pub program_target: Text,
}

/// `ConstraintClose` as contracts see it.
pub struct ConstraintCloseView {
    pub sol_dest: Text,
}

/// `ConstraintAssociatedToken` as contracts see it.
pub struct ConstraintAssociatedTokenView {
    pub wallet: Text,
    pub mint: Text,
}

/// `ConstraintSeedsGroup` as contracts see it.
pub struct ConstraintSeedsGroupView {
    pub is_init: bool,
    pub seeds: Seq<Text>,
    pub bump: Option<Text>,
}

/// `InitKind` as contracts see it.
#[allow(inconsistent_fields)]
pub enum InitKindView {
    Program { owner: Option<Text> },
    Token { owner: Text, mint: Text },
    AssociatedToken { owner: Text, mint: Text },
    Mint { owner: Text, freeze_authority: Option<Text>, decimals: u8 },
}

/// `ConstraintInitGroup` as contracts see it.
pub struct ConstraintInitGroupView {
    pub if_needed: bool,
    pub seeds: Option<ConstraintSeedsGroupView>,
    pub payer: Text,
    pub space: Option<Text>,
    pub kind: InitKindView,
}

impl DeepView for ConstraintZeroed {
    type V = ConstraintZeroed;

    open spec fn deep_view(&self) -> ConstraintZeroed {
        *self
    }
}

impl DeepView for ConstraintExecutable {
    type V = ConstraintExecutable;

    open spec fn deep_view(&self) -> ConstraintExecutable {
        *self
    }
}

impl DeepView for ConstraintRentExempt {
    type V = ConstraintRentExempt;

    open spec fn deep_view(&self) -> ConstraintRentExempt {
        *self
    }
}

impl DeepView for ConstraintMut {
    type V = ConstraintMutView;

    open spec fn deep_view(&self) -> ConstraintMutView {
        ConstraintMutView { error: self.error.deep_view() }
    }
}

impl DeepView for ConstraintSigner {
    type V = ConstraintSignerView;

    open spec fn deep_view(&self) -> ConstraintSignerView {
        ConstraintSignerView { error: self.error.deep_view() }
    }
}

impl DeepView for ConstraintDup {
    type V = ConstraintDupView;

    open spec fn deep_view(&self) -> ConstraintDupView {
        ConstraintDupView { target: self.target@ }
    }
}

impl DeepView for ConstraintHasOne {
    type V = ConstraintHasOneView;

    open spec fn deep_view(&self) -> ConstraintHasOneView {
        ConstraintHasOneView { join_target: self.join_target@, error: self.error.deep_view() }
    }
}

impl DeepView for ConstraintLiteral {
    type V = ConstraintLiteralView;

    open spec fn deep_view(&self) -> ConstraintLiteralView {
        ConstraintLiteralView { lit: self.lit@ }
    }
}

impl DeepView for ConstraintRaw {
    type V = ConstraintRawView;

    open spec fn deep_view(&self) -> ConstraintRawView {
        ConstraintRawView { raw: self.raw@, error: self.error.deep_view() }
    }
}

impl DeepView for ConstraintOwner {
    type V = ConstraintOwnerView;

    open spec fn deep_view(&self) -> ConstraintOwnerView {
        ConstraintOwnerView { owner_address: self.owner_address@, error: self.error.deep_view() }
    }
}

impl DeepView for ConstraintAddress {
    type V = ConstraintAddressView;

    open spec fn deep_view(&self) -> ConstraintAddressView {
        ConstraintAddressView { address: self.address@, error: self.error.deep_view() }
    }
}

impl DeepView for ConstraintState {
    type V = ConstraintStateView;

    open spec fn deep_view(&self) -> ConstraintStateView {
        ConstraintStateView { program_target: self.program_target@ }
    }
}

impl DeepView for ConstraintClose {
    type V = ConstraintCloseView;

    open spec fn deep_view(&self) -> ConstraintCloseView {
        ConstraintCloseView { sol_dest: self.sol_dest@ }
    }
}

impl DeepView for ConstraintAssociatedToken {
    type V = ConstraintAssociatedTokenView;

    open spec fn deep_view(&self) -> ConstraintAssociatedTokenView {
        ConstraintAssociatedTokenView { wallet: self.wallet@, mint: self.mint@ }
    }
}

impl DeepView for ConstraintSeedsGroup {
    type V = ConstraintSeedsGroupView;

    open spec fn deep_view(&self) -> ConstraintSeedsGroupView {
        ConstraintSeedsGroupView {
            is_init: self.is_init,
            seeds: self.seeds.deep_view(),
            bump: self.bump.deep_view(),
        }
    }
}

impl DeepView for InitKind {
    type V = InitKindView;

    open spec fn deep_view(&self) -> InitKindView {
        match self {
            InitKind::Program { owner } => InitKindView::Program { owner: owner.deep_view() },
            InitKind::Token { owner, mint } => InitKindView::Token { owner: owner@, mint: mint@ },
            InitKind::AssociatedToken { owner, mint } => InitKindView::AssociatedToken {
                owner: owner@,
                mint: mint@,
            },
            InitKind::Mint { owner, freeze_authority, decimals } => InitKindView::Mint {
                owner: owner@,
                freeze_authority: freeze_authority.deep_view(),
                decimals: *decimals,
            },
        }
    }
}

impl DeepView for ConstraintInitGroup {
    type V = ConstraintInitGroupView;

    open spec fn deep_view(&self) -> ConstraintInitGroupView {
        ConstraintInitGroupView {
            if_needed: self.if_needed,
            seeds: self.seeds.deep_view(),
            payer: self.payer@,
            space: self.space.deep_view(),
            kind: self.kind.deep_view(),
        }
    }
}

impl Clone for ConstraintMut {
    fn clone(&self) -> (r: Self)
        ensures
            r.deep_view() == self.deep_view(),
    {
        ConstraintMut { error: clone_opt_text(&self.error) }
    }
}

impl Clone for ConstraintSigner {
    fn clone(&self) -> (r: Self)
        ensures
            r.deep_view() == self.deep_view(),
    {
        ConstraintSigner { error: clone_opt_text(&self.error) }
    }
}

impl Clone for ConstraintDup {
    fn clone(&self) -> (r: Self)
        ensures
            r.deep_view() == self.deep_view(),
    {
        ConstraintDup { target: self.target.clone() }
    }
}

impl Clone for ConstraintHasOne {
    fn clone(&self) -> (r: Self)
        ensures
            r.deep_view() == self.deep_view(),
    {
        ConstraintHasOne {
            join_target: self.join_target.clone(),
            error: clone_opt_text(&self.error),
        }
    }
}

impl Clone for ConstraintLiteral {
    fn clone(&self) -> (r: Self)
        ensures
            r.deep_view() == self.deep_view(),
    {
        ConstraintLiteral { lit: self.lit.clone() }
    }
}

impl Clone for ConstraintRaw {
    fn clone(&self) -> (r: Self)
        ensures
            r.deep_view() == self.deep_view(),
    {
        ConstraintRaw { raw: self.raw.clone(), error: clone_opt_text(&self.error) }
    }
}

impl Clone for ConstraintOwner {
    fn clone(&self) -> (r: Self)
        ensures
            r.deep_view() == self.deep_view(),
    {
        ConstraintOwner {
            owner_address: self.owner_address.clone(),
            error: clone_opt_text(&self.error),
        }
    }
}

impl Clone for ConstraintAddress {
    fn clone(&self) -> (r: Self)
        ensures
            r.deep_view() == self.deep_view(),
    {
        ConstraintAddress { address: self.address.clone(), error: clone_opt_text(&self.error) }
    }
}

impl Clone for ConstraintState {
    fn clone(&self) -> (r: Self)
        ensures
            r.deep_view() == self.deep_view(),
    {
        ConstraintState { program_target: self.program_target.clone() }
    }
}

impl Clone for ConstraintClose {
    fn clone(&self) -> (r: Self)
        ensures
            r.deep_view() == self.deep_view(),
    {
        ConstraintClose { sol_dest: self.sol_dest.clone() }
    }
}

impl Clone for ConstraintAssociatedToken {
    fn clone(&self) -> (r: Self)
        ensures
            r.deep_view() == self.deep_view(),
    {
        ConstraintAssociatedToken { wallet: self.wallet.clone(), mint: self.mint.clone() }
    }
}

impl Clone for ConstraintSeedsGroup {
    fn clone(&self) -> (r: Self)
        ensures
            r.deep_view() == self.deep_view(),
    {
        ConstraintSeedsGroup {
            is_init: self.is_init,
            seeds: clone_texts(&self.seeds),
            bump: clone_opt_text(&self.bump),
        }
    }
}

impl Clone for InitKind {
    fn clone(&self) -> (r: Self)
        ensures
            r.deep_view() == self.deep_view(),
    {
        match self {
            InitKind::Program { owner } => InitKind::Program { owner: clone_opt_text(owner) },
            InitKind::Token { owner, mint } => InitKind::Token {
                owner: owner.clone(),
                mint: mint.clone(),
            },
            InitKind::AssociatedToken { owner, mint } => InitKind::AssociatedToken {
                owner: owner.clone(),
                mint: mint.clone(),
            },
            InitKind::Mint { owner, freeze_authority, decimals } => InitKind::Mint {
                owner: owner.clone(),
                freeze_authority: clone_opt_text(freeze_authority),
                decimals: *decimals,
            },
        }
    }
}

impl Clone for ConstraintInitGroup {
    fn clone(&self) -> (r: Self)
        ensures
            r.deep_view() == self.deep_view(),
    {
        let seeds = match &self.seeds {
            Some(s) => Some(s.clone()),
            None => None,
        };
        ConstraintInitGroup {
            if_needed: self.if_needed,
            seeds,
            payer: self.payer.clone(),
            space: clone_opt_text(&self.space),
            kind: self.kind.clone(),
        }
    }
}

} // verus!
