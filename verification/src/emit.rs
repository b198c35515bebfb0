//! The constraint emitter: one check per constraint, by kind.

use crate::checks::{Bump, BumpView, Check, CheckView, FieldChecks, FieldChecksView};
use crate::errors::{custom_or_default, generate_custom_error, ErrorExpr, ErrorExprView, ErrorKind};
use crate::field::{CompositeField, CompositeFieldView, Field, FieldView, Ty};
use crate::group::{Constraint, ConstraintGroup, ConstraintGroupView, ConstraintView};
use crate::init::{can_init, generate_constraint_init, init_group_plan};
use crate::linearize::{
    entries, lemma_identity_before_has_one, linear_order, linearize, ordered_up_to, rank_count,
};
use crate::model::{
    clone_texts, ConstraintAddress, ConstraintAssociatedToken, ConstraintClose,
    ConstraintExecutable, ConstraintHasOne, ConstraintLiteral, ConstraintMut,
    ConstraintOwner, ConstraintRaw, ConstraintRawView, ConstraintRentExempt, ConstraintSeedsGroup,
    ConstraintSeedsGroupView, ConstraintSigner, ConstraintState, ConstraintZeroed, InitKind, Text,
};
use crate::text::{remove_quotes, without_quotes};
use vstd::prelude::*;
use vstd::string::StringExecFns;

verus! {

/// The warning shown for a string-wrapped expression.
pub open spec fn deprecation_warning(constraint: Text) -> Text {
    "Deprecated. Should be used with constraint: #[account(constraint = "@ + constraint + ")]"@
}

/// How the bump of a `seeds` constraint is treated: a declared bump on a
/// field that is initialized must be the canonical one; elsewhere a declared
/// bump is used as given; without one the canonical bump is found.
pub open spec fn seeds_bump(c: ConstraintSeedsGroupView) -> BumpView {
    match c.bump {
        Some(b) => if c.is_init {
            BumpView::GivenCanonical(b)
        } else {
            BumpView::Given(b)
        },
        None => BumpView::Canonical,
    }
}

/// Whether a constraint can be compiled on a field of this type. `signer`
/// needs a type with an account handle, `state` the legacy state type of
/// another program, and `init` what the account creator needs.
pub open spec fn can_emit(f: FieldView, c: ConstraintView) -> bool {
    match c {
        ConstraintView::Signer(_) => f.ty.can_sign(),
        ConstraintView::State(_) => f.ty is CpiState,
        ConstraintView::Init(c) => can_init(f.ty, c.space, c.kind),
        _ => true,
    }
}

/// The emission table: the check that each kind of constraint is compiled
/// to on a field.
pub open spec fn emitted(f: FieldView, c: ConstraintView) -> CheckView
    recommends
        can_emit(f, c),
{
    match c {
        ConstraintView::Init(c) => CheckView::Init(init_group_plan(f, c)),
        ConstraintView::Zeroed(_) => CheckView::Zeroed {
            field: f.ident,
            error: ErrorExprView::Default(ErrorKind::AlreadyInitialized),
        },
        ConstraintView::Mut(c) => CheckView::Mut {
            field: f.ident,
            error: custom_or_default(c.error, ErrorKind::NotWritable),
        },
        ConstraintView::HasOne(c) => CheckView::HasOne {
            field: f.ident,
            load: f.ty.is_zero_copy(),
            target: c.join_target,
            error: custom_or_default(c.error, ErrorKind::ReferencedFieldMismatch),
        },
        ConstraintView::Signer(c) => CheckView::Signer {
            field: f.ident,
            through_handle: !(f.ty is AccountInfo),
            error: custom_or_default(c.error, ErrorKind::NotSigner),
        },
        ConstraintView::Literal(c) => emitted_literal(c.lit),
        ConstraintView::Raw(c) => emitted_raw(c),
        ConstraintView::Owner(c) => CheckView::Owner {
            field: f.ident,
            owner: c.owner_address,
            error: custom_or_default(c.error, ErrorKind::OwnerMismatch),
        },
        ConstraintView::RentExempt(c) => match c {
            ConstraintRentExempt::Skip => CheckView::Nothing,
            ConstraintRentExempt::Enforce => CheckView::RentExempt {
                field: f.ident,
                error: ErrorExprView::Default(ErrorKind::InsufficientRentExemption),
            },
        },
        ConstraintView::Seeds(c) => CheckView::Seeds {
            field: f.ident,
            seeds: c.seeds,
            bump: seeds_bump(c),
            error: ErrorExprView::Default(ErrorKind::DerivedAddressMismatch),
        },
        ConstraintView::Executable(_) => CheckView::Executable {
            field: f.ident,
            error: ErrorExprView::Default(ErrorKind::NotExecutable),
        },
        ConstraintView::State(c) => CheckView::State {
            field: f.ident,
            account_ty: f.ty->CpiState_0,
            program_target: c.program_target,
            error: ErrorExprView::Default(ErrorKind::CanonicalStateMismatch),
        },
        ConstraintView::Close(c) => CheckView::Close {
            field: f.ident,
            sol_dest: c.sol_dest,
            error: ErrorExprView::Default(ErrorKind::CloseTargetIsSelf),
        },
        ConstraintView::Address(c) => CheckView::Address {
            field: f.ident,
            address: c.address,
            error: custom_or_default(c.error, ErrorKind::AddressMismatch),
        },
        ConstraintView::AssociatedToken(c) => CheckView::AssociatedToken {
            field: f.ident,
            wallet: c.wallet,
            mint: c.mint,
            error: ErrorExprView::Default(ErrorKind::AssociatedAddressMismatch),
        },
        // Only the duplicate-account pass reads a `dup` constraint.
        ConstraintView::Dup(_) => CheckView::Nothing,
    }
}

/// The check that a string-wrapped expression is compiled to.
pub open spec fn emitted_literal(lit: Text) -> CheckView {
    CheckView::Literal {
        condition: without_quotes(lit),
        warning: deprecation_warning(without_quotes(lit)),
        error: ErrorExprView::Default(ErrorKind::DeprecatedLiteralFalse),
    }
}

/// The check that a boolean expression is compiled to.
pub open spec fn emitted_raw(c: ConstraintRawView) -> CheckView {
    CheckView::Raw {
        condition: c.raw,
        error: custom_or_default(c.error, ErrorKind::RawExpressionFalse),
    }
}

/// The check that a constraint on a nested group of accounts is compiled to.
pub open spec fn emitted_composite(c: ConstraintView) -> CheckView
    recommends
        c is Raw || c is Literal,
{
    match c {
        ConstraintView::Raw(c) => emitted_raw(c),
        ConstraintView::Literal(c) => emitted_literal(c.lit),
        _ => CheckView::Nothing,
    }
}

/// Whether every constraint that a field declares can be compiled on it.
pub open spec fn valid_field(f: FieldView) -> bool {
    &&& f.constraints.signer is Some ==> f.ty.can_sign()
    &&& f.constraints.state is Some ==> f.ty is CpiState
    &&& f.constraints.init matches Some(c) ==> can_init(f.ty, c.space, c.kind)
}

/// Whether a group declares nothing but boolean expressions.
pub open spec fn only_expressions(g: ConstraintGroupView) -> bool {
    &&& g.init is None
    &&& g.zeroed is None
    &&& g.mutable is None
    &&& g.dup is None
    &&& g.signer is None
    &&& g.has_one.len() == 0
    &&& g.owner is None
    &&& g.rent_exempt is None
    &&& g.seeds is None
    &&& g.executable is None
    &&& g.state is None
    &&& g.close is None
    &&& g.address is None
    &&& g.associated_token is None
}

/// Whether the sequence of a group needs the rent parameters: an enforced
/// `rent_exempt` check compares the balance with the minimum balance, and
/// the account creator funds the account to it, whatever the rent mode. The
/// associated-token program funds its account itself.
pub open spec fn reads_rent(g: ConstraintGroupView) -> bool {
    g.rent_exempt == Some(ConstraintRentExempt::Enforce) || (g.init matches Some(c)
        && !(c.kind is AssociatedToken))
}

/// The checks of a field: those of its constraints in linear order.
pub open spec fn field_checks(f: FieldView) -> FieldChecksView {
    let order = linear_order(f.constraints);
    FieldChecksView {
        load_rent: reads_rent(f.constraints),
        checks: Seq::new(order.len(), |k: int| emitted(f, order[k])),
    }
}

/// The checks of a nested group of accounts.
pub open spec fn composite_checks(f: CompositeFieldView) -> Seq<CheckView> {
    let order = linear_order(f.constraints);
    Seq::new(order.len(), |k: int| emitted_composite(order[k]))
}

/// What holds of everything a group contributes to a priority class holds
/// of every constraint in the sequence of the first `n` classes.
pub proof fn lemma_from_entries(g: ConstraintGroupView, n: nat, p: spec_fn(ConstraintView) -> bool)
    requires
        forall|r: nat, k: int| r < n && 0 <= k < entries(g, r).len() ==> p(#[trigger] entries(g, r)[k]),
    ensures
        forall|i: int| 0 <= i < ordered_up_to(g, n).len() ==> p(#[trigger] ordered_up_to(g, n)[i]),
    decreases n,
{
    if n > 0 {
        let m = (n - 1) as nat;
        lemma_from_entries(g, m, p);
        let head = ordered_up_to(g, m);
        let tail = entries(g, m);
        assert forall|i: int| 0 <= i < ordered_up_to(g, n).len() implies p(
            #[trigger] ordered_up_to(g, n)[i],
        ) by {
            if i < head.len() {
                assert(ordered_up_to(g, n)[i] == head[i]);
            } else {
                assert(ordered_up_to(g, n)[i] == tail[i - head.len()]);
            }
        }
    }
}

/// On a valid field every constraint of the sequence can be compiled.
pub proof fn lemma_valid_field_can_emit(f: FieldView)
    requires
        valid_field(f),
    ensures
        forall|i: int|
            0 <= i < linear_order(f.constraints).len() ==> can_emit(f, #[trigger] linear_order(f.constraints)[i]),
{
    lemma_from_entries(f.constraints, rank_count(), |c: ConstraintView| can_emit(f, c));
}

/// A group of boolean expressions compiles to boolean expressions.
pub proof fn lemma_only_expressions(g: ConstraintGroupView)
    requires
        only_expressions(g),
    ensures
        forall|i: int|
            0 <= i < linear_order(g).len() ==> (#[trigger] linear_order(g)[i]) is Raw || linear_order(g)[i] is Literal,
{
    lemma_from_entries(g, rank_count(), |c: ConstraintView| c is Raw || c is Literal);
}

fn default_error(kind: ErrorKind) -> (r: ErrorExpr)
    ensures
        r.deep_view() == ErrorExprView::Default(kind),
{
    ErrorExpr::Default(kind)
}

/// `address`: fails unless the account's key is the given address.
pub fn generate_constraint_address(f: &Field, c: &ConstraintAddress) -> (r: Check)
    ensures
        r.deep_view() == emitted(f.deep_view(), ConstraintView::Address(c.deep_view())),
{
    let error = generate_custom_error(&c.error, ErrorKind::AddressMismatch);
    Check::Address { field: f.ident.clone(), address: c.address.clone(), error }
}

/// `zeroed`: fails if the account already carries a type tag.
pub fn generate_constraint_zeroed(f: &Field, _c: &ConstraintZeroed) -> (r: Check)
    ensures
        r.deep_view() == emitted(f.deep_view(), ConstraintView::Zeroed(*_c)),
{
    Check::Zeroed { field: f.ident.clone(), error: default_error(ErrorKind::AlreadyInitialized) }
}

/// `close`: fails if the account is its own destination.
pub fn generate_constraint_close(f: &Field, c: &ConstraintClose) -> (r: Check)
    ensures
        r.deep_view() == emitted(f.deep_view(), ConstraintView::Close(c.deep_view())),
{
    Check::Close {
        field: f.ident.clone(),
        sol_dest: c.sol_dest.clone(),
        error: default_error(ErrorKind::CloseTargetIsSelf),
    }
}

/// `mut`: fails unless the account is writable.
pub fn generate_constraint_mut(f: &Field, c: &ConstraintMut) -> (r: Check)
    ensures
        r.deep_view() == emitted(f.deep_view(), ConstraintView::Mut(c.deep_view())),
{
    let error = generate_custom_error(&c.error, ErrorKind::NotWritable);
    Check::Mut { field: f.ident.clone(), error }
}

/// `has_one`: fails unless the named field of the account's content is the
/// key of the account of that name. The content of a zero-copy account is
/// loaded first.
pub fn generate_constraint_has_one(f: &Field, c: &ConstraintHasOne) -> (r: Check)
    ensures
        r.deep_view() == emitted(f.deep_view(), ConstraintView::HasOne(c.deep_view())),
{
    let load = f.ty.is_zero_copy();
    let error = generate_custom_error(&c.error, ErrorKind::ReferencedFieldMismatch);
    Check::HasOne { field: f.ident.clone(), load, target: c.join_target.clone(), error }
}

/// `signer`: fails unless the account signed. Under a typed account the flag
/// of the plain handle is read.
pub fn generate_constraint_signer(f: &Field, c: &ConstraintSigner) -> (r: Check)
    requires
        f.deep_view().ty.can_sign(),
    ensures
        r.deep_view() == emitted(f.deep_view(), ConstraintView::Signer(c.deep_view())),
{
    let through_handle = match &f.ty {
        Ty::AccountInfo => false,
        _ => true,
    };
    let error = generate_custom_error(&c.error, ErrorKind::NotSigner);
    Check::Signer { field: f.ident.clone(), through_handle, error }
}

/// A string-wrapped expression: the quotes are taken out, the author is
/// warned, and the check fails unless the expression is true.
pub fn generate_constraint_literal(c: &ConstraintLiteral) -> (r: Check)
    ensures
        r.deep_view() == emitted_literal(c.deep_view().lit),
{
    let constraint = remove_quotes(&c.lit);
    let mut warning = String::from_str(
        "Deprecated. Should be used with constraint: #[account(constraint = ",
    );
    warning.append(constraint.as_str());
    warning.append(")]");
    Check::Literal {
        condition: constraint,
        warning,
        error: default_error(ErrorKind::DeprecatedLiteralFalse),
    }
}

/// `constraint`: fails unless the expression is true.
pub fn generate_constraint_raw(c: &ConstraintRaw) -> (r: Check)
    ensures
        r.deep_view() == emitted_raw(c.deep_view()),
{
    let error = generate_custom_error(&c.error, ErrorKind::RawExpressionFalse);
    Check::Raw { condition: c.raw.clone(), error }
}

/// `owner`: fails unless the account's owner tag is the given address.
pub fn generate_constraint_owner(f: &Field, c: &ConstraintOwner) -> (r: Check)
    ensures
        r.deep_view() == emitted(f.deep_view(), ConstraintView::Owner(c.deep_view())),
{
    let error = generate_custom_error(&c.error, ErrorKind::OwnerMismatch);
    Check::Owner { field: f.ident.clone(), owner: c.owner_address.clone(), error }
}

/// `rent_exempt`: enforced, fails unless the balance reaches the exemption
/// threshold for the account's size; skipped, emits nothing.
pub fn generate_constraint_rent_exempt(f: &Field, c: &ConstraintRentExempt) -> (r: Check)
    ensures
        r.deep_view() == emitted(f.deep_view(), ConstraintView::RentExempt(*c)),
{
    match c {
        ConstraintRentExempt::Skip => Check::Nothing,
        ConstraintRentExempt::Enforce => Check::RentExempt {
            field: f.ident.clone(),
            error: default_error(ErrorKind::InsufficientRentExemption),
        },
    }
}

/// `seeds`: fails unless the account's key is the address derived from the
/// seeds.
pub fn generate_constraint_seeds(f: &Field, c: &ConstraintSeedsGroup) -> (r: Check)
    ensures
        r.deep_view() == emitted(f.deep_view(), ConstraintView::Seeds(c.deep_view())),
{
    let bump = match &c.bump {
        // A bump declared together with `init` must be the canonical bump.
        Some(b) => if c.is_init {
            Bump::GivenCanonical(b.clone())
        } else {
            Bump::Given(b.clone())
        },
        None => Bump::Canonical,
    };
    Check::Seeds {
        field: f.ident.clone(),
        seeds: clone_texts(&c.seeds),
        bump,
        error: default_error(ErrorKind::DerivedAddressMismatch),
    }
}

/// `associated_token`: fails unless the account's key is the associated
/// token address of the wallet for the mint.
pub fn generate_constraint_associated_token(f: &Field, c: &ConstraintAssociatedToken) -> (r: Check)
    ensures
        r.deep_view() == emitted(f.deep_view(), ConstraintView::AssociatedToken(c.deep_view())),
{
    Check::AssociatedToken {
        field: f.ident.clone(),
        wallet: c.wallet.clone(),
        mint: c.mint.clone(),
        error: default_error(ErrorKind::AssociatedAddressMismatch),
    }
}

/// `executable`: fails unless the account is a program.
pub fn generate_constraint_executable(f: &Field, _c: &ConstraintExecutable) -> (r: Check)
    ensures
        r.deep_view() == emitted(f.deep_view(), ConstraintView::Executable(*_c)),
{
    Check::Executable { field: f.ident.clone(), error: default_error(ErrorKind::NotExecutable) }
}

/// `state`: fails unless the account is the canonical state account of the
/// target program and belongs to it.
pub fn generate_constraint_state(f: &Field, c: &ConstraintState) -> (r: Check)
    requires
        f.deep_view().ty is CpiState,
    ensures
        r.deep_view() == emitted(f.deep_view(), ConstraintView::State(c.deep_view())),
{
    let account_ty = match &f.ty {
        Ty::CpiState(ty) => ty.clone(),
        _ => vstd::pervasive::unreached(),
    };
    Check::State {
        field: f.ident.clone(),
        account_ty,
        program_target: c.program_target.clone(),
        error: default_error(ErrorKind::CanonicalStateMismatch),
    }
}

/// Compiles one constraint of a field: the dispatch over the kinds.
pub fn generate_constraint(f: &Field, c: &Constraint) -> (r: Check)
    requires
        can_emit(f.deep_view(), c.deep_view()),
    ensures
        r.deep_view() == emitted(f.deep_view(), c.deep_view()),
{
    match c {
        Constraint::Init(c) => generate_constraint_init(f, c),
        Constraint::Zeroed(c) => generate_constraint_zeroed(f, c),
        Constraint::Mut(c) => generate_constraint_mut(f, c),
        Constraint::HasOne(c) => generate_constraint_has_one(f, c),
        Constraint::Signer(c) => generate_constraint_signer(f, c),
        Constraint::Literal(c) => generate_constraint_literal(c),
        Constraint::Raw(c) => generate_constraint_raw(c),
        Constraint::Owner(c) => generate_constraint_owner(f, c),
        Constraint::RentExempt(c) => generate_constraint_rent_exempt(f, c),
        Constraint::Seeds(c) => generate_constraint_seeds(f, c),
        Constraint::Executable(c) => generate_constraint_executable(f, c),
        Constraint::State(c) => generate_constraint_state(f, c),
        Constraint::Close(c) => generate_constraint_close(f, c),
        Constraint::Address(c) => generate_constraint_address(f, c),
        Constraint::AssociatedToken(c) => generate_constraint_associated_token(f, c),
        // Only the duplicate-account pass reads a `dup` constraint.
        Constraint::Dup(_) => Check::Nothing,
    }
}

/// Compiles one constraint of a nested group of accounts.
pub fn generate_constraint_composite(_f: &CompositeField, c: &Constraint) -> (r: Check)
    requires
        c.deep_view() is Raw || c.deep_view() is Literal,
    ensures
        r.deep_view() == emitted_composite(c.deep_view()),
{
    match c {
        Constraint::Raw(c) => generate_constraint_raw(c),
        Constraint::Literal(c) => generate_constraint_literal(c),
        _ => vstd::pervasive::unreached(),
    }
}

/// Whether every constraint that the field declares can be compiled on it.
pub fn is_valid_field(f: &Field) -> (r: bool)
    ensures
        r == valid_field(f.deep_view()),
{
    let signer_ok = !f.constraints.signer.is_some() || f.ty.can_sign();
    let state_ok = match (&f.constraints.state, &f.ty) {
        (Some(_), Ty::CpiState(_)) => true,
        (Some(_), _) => false,
        (None, _) => true,
    };
    let init_ok = match &f.constraints.init {
        Some(c) => match (&c.kind, &c.space) {
            (InitKind::Program { .. }, None) => f.ty.account_ty().is_some(),
            _ => true,
        },
        None => true,
    };
    signer_ok && state_ok && init_ok
}

/// Compiles the constraints of a field into its sequence of checks, in
/// linear order.
pub fn generate(f: &Field) -> (r: FieldChecks)
    requires
        valid_field(f.deep_view()),
    ensures
        r.deep_view() == field_checks(f.deep_view()),
{
    let constraints = linearize(&f.constraints);
    let enforced = match &f.constraints.rent_exempt {
        Some(ConstraintRentExempt::Enforce) => true,
        _ => false,
    };
    let creates = match &f.constraints.init {
        Some(c) => match &c.kind {
            InitKind::AssociatedToken { .. } => false,
            _ => true,
        },
        None => false,
    };
    let load_rent = enforced || creates;
    let ghost fv = f.deep_view();
    let ghost order = linear_order(fv.constraints);
    proof {
        lemma_valid_field_can_emit(fv);
    }
    let mut checks: Vec<Check> = Vec::new();
    let mut i: usize = 0;
    while i < constraints.len()
        invariant
            i <= constraints.len(),
            fv == f.deep_view(),
            order == constraints.deep_view(),
            forall|k: int| 0 <= k < order.len() ==> can_emit(fv, #[trigger] order[k]),
            checks.len() == i,
            forall|k: int| 0 <= k < i ==> (#[trigger] checks[k]).deep_view() == emitted(fv, order[k]),
        decreases constraints.len() - i,
    {
        assert(constraints[i as int].deep_view() == order[i as int]);
        let check = generate_constraint(f, &constraints[i]);
        checks.push(check);
        i += 1;
    }
    assert(checks.deep_view() =~= field_checks(fv).checks);
    FieldChecks { load_rent, checks }
}

/// Whether a group declares nothing but boolean expressions.
pub fn is_expression_only(g: &ConstraintGroup) -> (r: bool)
    ensures
        r == only_expressions(g.deep_view()),
{
    g.init.is_none() && g.zeroed.is_none() && g.mutable.is_none() && g.dup.is_none()
        && g.signer.is_none() && g.has_one.len() == 0 && g.owner.is_none()
        && g.rent_exempt.is_none() && g.seeds.is_none() && g.executable.is_none()
        && g.state.is_none() && g.close.is_none() && g.address.is_none()
        && g.associated_token.is_none()
}

/// Compiles the constraints of a nested group of accounts, on which only
/// boolean expressions may be declared.
pub fn generate_composite(f: &CompositeField) -> (r: Vec<Check>)
    requires
        only_expressions(f.deep_view().constraints),
    ensures
        r.deep_view() == composite_checks(f.deep_view()),
{
    let constraints = linearize(&f.constraints);
    let ghost order = linear_order(f.deep_view().constraints);
    proof {
        lemma_only_expressions(f.deep_view().constraints);
    }
    let mut checks: Vec<Check> = Vec::new();
    let mut i: usize = 0;
    while i < constraints.len()
        invariant
            i <= constraints.len(),
            order == constraints.deep_view(),
            forall|k: int| 0 <= k < order.len() ==> (#[trigger] order[k]) is Raw || order[k] is Literal,
            checks.len() == i,
            forall|k: int| 0 <= k < i ==> (#[trigger] checks[k]).deep_view() == emitted_composite(order[k]),
        decreases constraints.len() - i,
    {
        assert(constraints[i as int].deep_view() == order[i as int]);
        let check = generate_constraint_composite(f, &constraints[i]);
        checks.push(check);
        i += 1;
    }
    assert(checks.deep_view() =~= composite_checks(f.deep_view()));
    checks
}

/// In the checks of a field, initialization and derivation come before every
/// `has_one` check: the account is established before its content is read.
pub proof fn lemma_checks_identity_before_has_one(f: FieldView, i: int, j: int)
    requires
        0 <= i < field_checks(f).checks.len(),
        0 <= j < field_checks(f).checks.len(),
        field_checks(f).checks[i] is Init || field_checks(f).checks[i] is Seeds,
        field_checks(f).checks[j] is HasOne,
    ensures
        i < j,
{
    lemma_identity_before_has_one(f.constraints, i, j);
}

} // verus!
