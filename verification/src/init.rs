//! The `init` constraint: which creation and setup each initialization kind
//! is compiled to.

use crate::checks::{
    Check, CheckView, CreateAccount, CreateAccountView, InitPlan, InitPlanView, Owner, OwnerView,
    SignerSeeds, SignerSeedsView, Space, SpaceView, Strategy, StrategyView,
};
use crate::field::{Field, FieldView, TyView};
use crate::model::{
    clone_opt_text, clone_texts, ConstraintInitGroup, ConstraintInitGroupView,
    ConstraintSeedsGroupView, InitKind, InitKindView, Text,
};
use vstd::prelude::*;

verus! {

/// The size of a program-owned account: the declared size where one is
/// given; otherwise the header and the default value of the account type,
/// serialized, or for a zero-copy account its fixed layout.
pub open spec fn declared_space(ty: TyView, space: Option<Text>) -> SpaceView
    recommends
        space is Some || ty.account_ty() is Some,
{
    match space {
        Some(s) => SpaceView::Explicit(s),
        None => if ty.is_zero_copy() {
            SpaceView::ZeroCopy(ty.account_ty()->0)
        } else {
            SpaceView::Serialized(ty.account_ty()->0)
        },
    }
}

/// The owner of a program-owned account: the declared owner where one is
/// given, else the program that is running.
pub open spec fn declared_owner(owner: Option<Text>) -> OwnerView {
    match owner {
        Some(o) => OwnerView::Expr(o),
        None => OwnerView::Program,
    }
}

/// The signing seeds that an `init` constraint hands to the account creator:
/// the declared seeds and bump, none where no seeds are declared.
pub open spec fn signer_of(seeds: Option<ConstraintSeedsGroupView>) -> Option<SignerSeedsView> {
    match seeds {
        Some(group) => Some(SignerSeedsView { seeds: group.seeds, bump: group.bump }),
        None => None,
    }
}

/// Whether a field's type gives what its initialization needs: a
/// program-owned account without a declared size takes its size from the
/// account type that the field wraps.
pub open spec fn can_init(ty: TyView, space: Option<Text>, kind: InitKindView) -> bool {
    kind is Program && space is None ==> ty.account_ty() is Some
}

/// The initialization that a field, a payer, an optional size and a kind
/// are compiled to.
///
/// - `Program`: the account is created with the declared size and owner.
/// - `Token`, `Mint`: the account is created with the fixed layout of its
///   kind and owned by the token program; the token program then sets it up.
///   A declared size is not used.
/// - `AssociatedToken`: one call of the associated-token program; no
///   creation by hand, and no signing seeds.
pub open spec fn init_plan(
    f: FieldView,
    if_needed: bool,
    signer: Option<SignerSeedsView>,
    payer: Text,
    space: Option<Text>,
    kind: InitKindView,
) -> InitPlanView {
    InitPlanView {
        field: f.ident,
        if_needed,
        payer,
        strategy: match kind {
            InitKindView::Program { owner } => StrategyView::Program {
                create: CreateAccountView {
                    field: f.ident,
                    space: declared_space(f.ty, space),
                    owner: declared_owner(owner),
                    signer,
                },
            },
            InitKindView::Token { owner, mint } => StrategyView::Token {
                owner,
                mint,
                create: CreateAccountView {
                    field: f.ident,
                    space: SpaceView::TokenAccount,
                    owner: OwnerView::TokenProgram,
                    signer,
                },
            },
            InitKindView::Mint { owner, freeze_authority, decimals } => StrategyView::Mint {
                owner,
                decimals,
                freeze_authority,
                create: CreateAccountView {
                    field: f.ident,
                    space: SpaceView::Mint,
                    owner: OwnerView::TokenProgram,
                    signer,
                },
            },
            InitKindView::AssociatedToken { owner, mint } => StrategyView::AssociatedToken { owner, mint },
        },
    }
}

/// The initialization that an `init` constraint on a field is compiled to.
pub open spec fn init_group_plan(f: FieldView, c: ConstraintInitGroupView) -> InitPlanView {
    init_plan(f, c.if_needed, signer_of(c.seeds), c.payer, c.space, c.kind)
}

/// One use of the account creator for the account of `field`: it is brought
/// to `space` bytes, funded for rent exemption and assigned to `owner`;
/// `seeds_with_nonce` are given where the account's address is derived and
/// must sign.
pub fn generate_create_account(
    field: &String,
    space: Space,
    owner: Owner,
    seeds_with_nonce: Option<SignerSeeds>,
) -> (r: CreateAccount)
    ensures
        r.deep_view() == (CreateAccountView {
            field: field@,
            space: space.deep_view(),
            owner: owner.deep_view(),
            signer: seeds_with_nonce.deep_view(),
        }),
{
    CreateAccount { field: field.clone(), space, owner, signer: seeds_with_nonce }
}

/// Compiles the initialization of a field. `if_needed` is set where creation
/// and setup are skipped for an account that is initialized already.
pub fn generate_init(
    f: &Field,
    if_needed: bool,
    seeds_with_nonce: Option<SignerSeeds>,
    payer: String,
    space: &Option<String>,
    kind: &InitKind,
) -> (r: InitPlan)
    requires
        can_init(f.deep_view().ty, space.deep_view(), kind.deep_view()),
    ensures
        r.deep_view() == init_plan(
            f.deep_view(),
            if_needed,
            seeds_with_nonce.deep_view(),
            payer@,
            space.deep_view(),
            kind.deep_view(),
        ),
{
    let strategy = match kind {
        InitKind::Token { owner, mint } => {
            let create = generate_create_account(
                &f.ident,
                Space::TokenAccount,
                Owner::TokenProgram,
                seeds_with_nonce,
            );
            Strategy::Token { owner: owner.clone(), mint: mint.clone(), create }
        },
        InitKind::AssociatedToken { owner, mint } => Strategy::AssociatedToken {
            owner: owner.clone(),
            mint: mint.clone(),
        },
        InitKind::Mint { owner, decimals, freeze_authority } => {
            let create = generate_create_account(
                &f.ident,
                Space::Mint,
                Owner::TokenProgram,
                seeds_with_nonce,
            );
            Strategy::Mint {
                owner: owner.clone(),
                decimals: *decimals,
                freeze_authority: clone_opt_text(freeze_authority),
                create,
            }
        },
        InitKind::Program { owner } => {
            let space = match space {
                // Without a declared size the account type decides.
                None => {
                    let account_ty = f.ty.account_ty();
                    match account_ty {
                        Some(account_ty) => if f.ty.is_zero_copy() {
                            Space::ZeroCopy(account_ty)
                        } else {
                            Space::Serialized(account_ty)
                        },
                        None => vstd::pervasive::unreached(),
                    }
                },
                Some(s) => Space::Explicit(s.clone()),
            };
            // Without a declared owner the account belongs to the program
            // that is running.
            let owner = match owner {
                None => Owner::Program,
                Some(o) => Owner::Expr(o.clone()),
            };
            let create = generate_create_account(&f.ident, space, owner, seeds_with_nonce);
            Strategy::Program { create }
        },
    };
    InitPlan { field: f.ident.clone(), if_needed, payer, strategy }
}

/// Compiles an `init` constraint: the declared seeds, with the declared bump
/// or else the canonical one, become the signing authority of the creation.
pub fn generate_constraint_init_group(f: &Field, c: &ConstraintInitGroup) -> (r: InitPlan)
    requires
        can_init(f.deep_view().ty, c.deep_view().space, c.deep_view().kind),
    ensures
        r.deep_view() == init_group_plan(f.deep_view(), c.deep_view()),
{
    let payer = c.payer.clone();
    let seeds_with_nonce = match &c.seeds {
        None => None,
        Some(group) => Some(
            SignerSeeds { seeds: clone_texts(&group.seeds), bump: clone_opt_text(&group.bump) },
        ),
    };
    generate_init(f, c.if_needed, seeds_with_nonce, payer, &c.space, &c.kind)
}

/// The check that an `init` constraint is compiled to.
pub fn generate_constraint_init(f: &Field, c: &ConstraintInitGroup) -> (r: Check)
    requires
        can_init(f.deep_view().ty, c.deep_view().space, c.deep_view().kind),
    ensures
        r.deep_view() == CheckView::Init(init_group_plan(f.deep_view(), c.deep_view())),
{
    Check::Init(generate_constraint_init_group(f, c))
}

} // verus!
