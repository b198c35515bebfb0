//! What the emitted checks do when they run: each check reads live state,
//! passes or raises its error, and the sequence stops at the first failure.
//!
//! The host reads the accounts at the time each check runs and hands over
//! what it saw as an `Observation`.

use crate::address::Address;
use crate::checks::{Bump, BumpView, Check, CheckView, Strategy, StrategyView};
use crate::creator::{
    initialization_calls, initialize, Initialization, InitializationView, Invocation, InvocationView,
    Setup,
};
use crate::emit::emitted;
use crate::errors::{custom_or_default, ErrorExpr, ErrorExprView, ErrorKind};
use crate::field::FieldView;
use crate::group::ConstraintView;
use crate::model::{ConstraintHasOneView, ConstraintRentExempt};
use crate::pda::{
    check_associated_token, check_seeds, is_associated_address, seeds_accept, BumpValue,
};
use vstd::prelude::*;

verus! {

/// What the host saw of live state for one check.
#[derive(Clone, Debug, PartialEq, Eq)]
pub enum Observation {
    /// Nothing was read.
    Nothing,
    /// The first eight bytes of the account's data, read as a little-endian
    /// number.
    Zeroed { discriminator: u64 },
    /// The state of the account to initialize, and every address and amount
    /// of its setup.
    Init(Initialization),
    /// The key of the account, the running program, and the values of the
    /// seeds and of the declared bump.
    Seeds { key: Address, program_id: Address, seeds: Vec<Vec<u8>>, bump: BumpValue },
    /// The key of the account, and the keys of the wallet, the mint and the
    /// two programs of the derivation.
    AssociatedToken {
        key: Address,
        wallet: Address,
        mint: Address,
        token_program: Address,
        associated_token_program: Address,
    },
    /// Whether the account is writable.
    Mut { is_writable: bool },
    /// Whether the account signed.
    Signer { is_signer: bool },
    /// The reference stored in the account's content, and the key of the
    /// account it is compared with.
    HasOne { stored: Address, target: Address },
    /// The value of a boolean expression.
    Condition { holds: bool },
    /// The owner tag of the account, and the value of the declared owner.
    Owner { owner: Address, expected: Address },
    /// The balance of the account, and the minimum balance for rent
    /// exemption at its size.
    RentExempt { lamports: u64, min_balance: u64 },
    /// Whether the account is a program.
    Executable { executable: bool },
    /// The key and the owner tag of the account, the key of the target
    /// program and the canonical state address of that program.
    State { key: Address, owner: Address, canonical: Address, program: Address },
    /// The key of the account and of the destination of its balance.
    Close { key: Address, destination: Address },
    /// The key of the account, and the value of the declared address.
    Address { key: Address, expected: Address },
}

/// `Observation` as contracts see it.
pub enum ObservationView {
    Nothing,
    Zeroed { discriminator: u64 },
    Init(InitializationView),
    Seeds { key: Address, program_id: Address, seeds: Seq<Seq<u8>>, bump: BumpValue },
    AssociatedToken {
        key: Address,
        wallet: Address,
        mint: Address,
        token_program: Address,
        associated_token_program: Address,
    },
    Mut { is_writable: bool },
    Signer { is_signer: bool },
    HasOne { stored: Address, target: Address },
    Condition { holds: bool },
    Owner { owner: Address, expected: Address },
    RentExempt { lamports: u64, min_balance: u64 },
    Executable { executable: bool },
    State { key: Address, owner: Address, canonical: Address, program: Address },
    Close { key: Address, destination: Address },
    Address { key: Address, expected: Address },
}

impl DeepView for Observation {
    type V = ObservationView;

    open spec fn deep_view(&self) -> ObservationView {
        match self {
            Observation::Nothing => ObservationView::Nothing,
            Observation::Zeroed { discriminator } => ObservationView::Zeroed {
                discriminator: *discriminator,
            },
            Observation::Init(i) => ObservationView::Init(i.deep_view()),
            Observation::Seeds { key, program_id, seeds, bump } => ObservationView::Seeds {
                key: *key,
                program_id: *program_id,
                seeds: seeds.deep_view(),
                bump: *bump,
            },
            Observation::AssociatedToken {
                key,
                wallet,
                mint,
                token_program,
                associated_token_program,
            } => ObservationView::AssociatedToken {
                key: *key,
                wallet: *wallet,
                mint: *mint,
                token_program: *token_program,
                associated_token_program: *associated_token_program,
            },
            Observation::Mut { is_writable } => ObservationView::Mut { is_writable: *is_writable },
            Observation::Signer { is_signer } => ObservationView::Signer { is_signer: *is_signer },
            Observation::HasOne { stored, target } => ObservationView::HasOne {
                stored: *stored,
                target: *target,
            },
            Observation::Condition { holds } => ObservationView::Condition { holds: *holds },
            Observation::Owner { owner, expected } => ObservationView::Owner {
                owner: *owner,
                expected: *expected,
            },
            Observation::RentExempt { lamports, min_balance } => ObservationView::RentExempt {
                lamports: *lamports,
                min_balance: *min_balance,
            },
            Observation::Executable { executable } => ObservationView::Executable {
                executable: *executable,
            },
            Observation::State { key, owner, canonical, program } => ObservationView::State {
                key: *key,
                owner: *owner,
                canonical: *canonical,
                program: *program,
            },
            Observation::Close { key, destination } => ObservationView::Close {
                key: *key,
                destination: *destination,
            },
            Observation::Address { key, expected } => ObservationView::Address {
                key: *key,
                expected: *expected,
            },
        }
    }
}

/// Reads the type tag at the front of an account's data: its first eight
/// bytes as a little-endian number.
pub fn discriminator(data: &[u8]) -> (r: u64)
    requires
        data@.len() >= 8,
    ensures
        r == vstd::bytes::spec_u64_from_le_bytes(data@.subrange(0, 8)),
{
    vstd::bytes::u64_from_le_bytes(vstd::slice::slice_subrange(data, 0, 8))
}

/// Whether an observation is of what a check reads: of the same kind, and
/// for `seeds` and `init` with the bump, the kind of setup and the signing
/// seeds given as the check declares them.
pub open spec fn describes(seen: ObservationView, check: CheckView) -> bool {
    match check {
        CheckView::Nothing => true,
        CheckView::Zeroed { .. } => seen is Zeroed,
        CheckView::Init(plan) => seen matches ObservationView::Init(i) && i.if_needed == plan.if_needed
            && match plan.strategy {
            StrategyView::Program { create } => i.setup is Program && (create.signer is Some
                <==> i.signer_seeds is Some),
            StrategyView::Token { create, .. } => i.setup is Token && (create.signer is Some
                <==> i.signer_seeds is Some),
            StrategyView::Mint { decimals, freeze_authority, create, .. } => i.setup matches Setup::Mint {
                decimals: d,
                freeze_authority: fa,
                ..
            } && d == decimals && (fa is Some <==> freeze_authority is Some) && (create.signer is Some
                <==> i.signer_seeds is Some),
            StrategyView::AssociatedToken { .. } => i.setup is AssociatedToken && i.signer_seeds is None,
        },
        CheckView::Seeds { bump, .. } => seen matches ObservationView::Seeds { bump: value, .. }
            && match bump {
            BumpView::Canonical => value is Canonical,
            BumpView::Given(_) => value is Given,
            BumpView::GivenCanonical(_) => value is GivenCanonical,
        },
        CheckView::AssociatedToken { .. } => seen is AssociatedToken,
        CheckView::Mut { .. } => seen is Mut,
        CheckView::Signer { .. } => seen is Signer,
        CheckView::HasOne { .. } => seen is HasOne,
        CheckView::Literal { .. } => seen is Condition,
        CheckView::Raw { .. } => seen is Condition,
        CheckView::Owner { .. } => seen is Owner,
        CheckView::RentExempt { .. } => seen is RentExempt,
        CheckView::Executable { .. } => seen is Executable,
        CheckView::State { .. } => seen is State,
        CheckView::Close { .. } => seen is Close,
        CheckView::Address { .. } => seen is Address,
    }
}

/// Whether the condition that a check tests holds of what was seen.
pub open spec fn passes(seen: ObservationView) -> bool {
    match seen {
        ObservationView::Nothing => true,
        ObservationView::Init(_) => true,
        ObservationView::Zeroed { discriminator } => discriminator == 0,
        ObservationView::Seeds { key, program_id, seeds, bump } => seeds_accept(
            key@,
            program_id@,
            seeds,
            bump,
        ),
        ObservationView::AssociatedToken {
            key,
            wallet,
            mint,
            token_program,
            associated_token_program,
        } => is_associated_address(key@, wallet@, mint@, token_program@, associated_token_program@),
        ObservationView::Mut { is_writable } => is_writable,
        ObservationView::Signer { is_signer } => is_signer,
        ObservationView::HasOne { stored, target } => stored == target,
        ObservationView::Condition { holds } => holds,
        ObservationView::Owner { owner, expected } => owner == expected,
        ObservationView::RentExempt { lamports, min_balance } => lamports >= min_balance,
        ObservationView::Executable { executable } => executable,
        ObservationView::State { key, owner, canonical, program } => key == canonical && owner
            == program,
        ObservationView::Close { key, destination } => key != destination,
        ObservationView::Address { key, expected } => key == expected,
    }
}

/// What running one check comes to: the invocations that the host is to
/// issue (none but for `init`), or the error of the check.
pub open spec fn outcome(check: CheckView, seen: ObservationView) -> Result<
    Seq<InvocationView>,
    ErrorExprView,
>
    recommends
        describes(seen, check),
{
    match check {
        CheckView::Nothing => Ok(seq![]),
        CheckView::Init(_) => Ok(initialization_calls(seen->Init_0)),
        _ => if passes(seen) {
            Ok(seq![])
        } else {
            Err(check.error()->0)
        },
    }
}

/// The view of what running a check returned.
pub open spec fn outcome_view(r: Result<Vec<Invocation>, ErrorExpr>) -> Result<
    Seq<InvocationView>,
    ErrorExprView,
> {
    match r {
        Ok(calls) => Ok(calls.deep_view()),
        Err(error) => Err(error.deep_view()),
    }
}

impl Observation {
    /// Whether the condition that a check tests holds of what was seen.
    pub fn passes(&self) -> (r: bool)
        ensures
            r == passes(self.deep_view()),
    {
        match self {
            Observation::Nothing => true,
            Observation::Init(_) => true,
            Observation::Zeroed { discriminator } => *discriminator == 0,
            Observation::Seeds { key, program_id, seeds, bump } => check_seeds(
                key,
                program_id,
                seeds,
                *bump,
            ),
            Observation::AssociatedToken {
                key,
                wallet,
                mint,
                token_program,
                associated_token_program,
            } => check_associated_token(key, wallet, mint, token_program, associated_token_program),
            Observation::Mut { is_writable } => *is_writable,
            Observation::Signer { is_signer } => *is_signer,
            Observation::HasOne { stored, target } => stored.same(target),
            Observation::Condition { holds } => *holds,
            Observation::Owner { owner, expected } => owner.same(expected),
            Observation::RentExempt { lamports, min_balance } => *lamports >= *min_balance,
            Observation::Executable { executable } => *executable,
            Observation::State { key, owner, canonical, program } => key.same(canonical)
                && owner.same(program),
            Observation::Close { key, destination } => !key.same(destination),
            Observation::Address { key, expected } => key.same(expected),
        }
    }

    /// Whether this observation is of what the check reads.
    pub fn describes(&self, check: &Check) -> (r: bool)
        ensures
            r == describes(self.deep_view(), check.deep_view()),
    {
        match check {
            Check::Nothing => true,
            Check::Zeroed { .. } => matches!(self, Observation::Zeroed { .. }),
            Check::Init(plan) => match self {
                Observation::Init(i) => {
                    let strategy_ok = match &plan.strategy {
                        Strategy::Program { create } => matches!(i.setup, Setup::Program { .. })
                            && create.signer.is_some() == i.signer_seeds.is_some(),
                        Strategy::Token { create, .. } => matches!(i.setup, Setup::Token { .. })
                            && create.signer.is_some() == i.signer_seeds.is_some(),
                        Strategy::Mint { decimals, freeze_authority, create, .. } => match i.setup {
                            Setup::Mint { decimals: d, freeze_authority: fa, .. } => d == *decimals
                                && fa.is_some() == freeze_authority.is_some()
                                && create.signer.is_some() == i.signer_seeds.is_some(),
                            _ => false,
                        },
                        Strategy::AssociatedToken { .. } => matches!(
                            i.setup,
                            Setup::AssociatedToken { .. }
                        ) && i.signer_seeds.is_none(),
                    };
                    i.if_needed == plan.if_needed && strategy_ok
                },
                _ => false,
            },
            Check::Seeds { bump, .. } => match self {
                Observation::Seeds { bump: value, .. } => match bump {
                    Bump::Canonical => matches!(value, BumpValue::Canonical),
                    Bump::Given(_) => matches!(value, BumpValue::Given(_)),
                    Bump::GivenCanonical(_) => matches!(value, BumpValue::GivenCanonical(_)),
                },
                _ => false,
            },
            Check::AssociatedToken { .. } => matches!(self, Observation::AssociatedToken { .. }),
            Check::Mut { .. } => matches!(self, Observation::Mut { .. }),
            Check::Signer { .. } => matches!(self, Observation::Signer { .. }),
            Check::HasOne { .. } => matches!(self, Observation::HasOne { .. }),
            Check::Literal { .. } => matches!(self, Observation::Condition { .. }),
            Check::Raw { .. } => matches!(self, Observation::Condition { .. }),
            Check::Owner { .. } => matches!(self, Observation::Owner { .. }),
            Check::RentExempt { .. } => matches!(self, Observation::RentExempt { .. }),
            Check::Executable { .. } => matches!(self, Observation::Executable { .. }),
            Check::State { .. } => matches!(self, Observation::State { .. }),
            Check::Close { .. } => matches!(self, Observation::Close { .. }),
            Check::Address { .. } => matches!(self, Observation::Address { .. }),
        }
    }
}

/// Runs one check against what the host saw.
pub fn evaluate(check: &Check, seen: &Observation) -> (r: Result<Vec<Invocation>, ErrorExpr>)
    requires
        describes(seen.deep_view(), check.deep_view()),
    ensures
        outcome_view(r) == outcome(check.deep_view(), seen.deep_view()),
{
    match check {
        Check::Nothing => {
            let calls: Vec<Invocation> = Vec::new();
            assert(calls.deep_view() =~= Seq::<InvocationView>::empty());
            Ok(calls)
        },
        Check::Init(_) => match seen {
            Observation::Init(i) => Ok(initialize(i)),
            _ => vstd::pervasive::unreached(),
        },
        _ => {
            if seen.passes() {
                let calls: Vec<Invocation> = Vec::new();
                assert(calls.deep_view() =~= Seq::<InvocationView>::empty());
                Ok(calls)
            } else {
                match check.error() {
                    Some(error) => Err(error),
                    None => vstd::pervasive::unreached(),
                }
            }
        },
    }
}

/// The balance threshold of rent exemption: an enforced `rent_exempt` check
/// fails, with its own error, on every balance below the minimum balance and
/// passes on every other; a skipped one passes whatever is seen.
pub proof fn lemma_rent_exemption_threshold(f: FieldView, lamports: u64, min_balance: u64, seen: ObservationView)
    ensures
        outcome(
            emitted(f, ConstraintView::RentExempt(ConstraintRentExempt::Enforce)),
            ObservationView::RentExempt { lamports, min_balance },
        ) == if lamports < min_balance {
            Err::<Seq<InvocationView>, ErrorExprView>(
                ErrorExprView::Default(ErrorKind::InsufficientRentExemption),
            )
        } else {
            Ok(seq![])
        },
        outcome(emitted(f, ConstraintView::RentExempt(ConstraintRentExempt::Skip)), seen) == Ok::<
            Seq<InvocationView>,
            ErrorExprView,
        >(seq![]),
{
}

/// A `has_one` check fails exactly where the stored reference is not the key
/// of the other account, and then raises its error. The check reads nothing
/// but these two values: where the two accounts stand among the fields has
/// no part in it.
pub proof fn lemma_has_one_mismatch(f: FieldView, c: ConstraintHasOneView, stored: Address, target: Address)
    ensures
        outcome(emitted(f, ConstraintView::HasOne(c)), ObservationView::HasOne { stored, target })
            == if stored != target {
            Err::<Seq<InvocationView>, ErrorExprView>(
                custom_or_default(c.error, ErrorKind::ReferencedFieldMismatch),
            )
        } else {
            Ok(seq![])
        },
{
}

/// Where a sequence of checks stopped, and with what error.
#[derive(Clone, Debug, PartialEq, Eq)]
pub struct Failure {
    pub index: usize,
    pub error: ErrorExpr,
}

/// `Failure` as contracts see it.
pub struct FailureView {
    pub index: int,
    pub error: ErrorExprView,
}

impl DeepView for Failure {
    type V = FailureView;

    open spec fn deep_view(&self) -> FailureView {
        FailureView { index: self.index as int, error: self.error.deep_view() }
    }
}

/// What running a sequence of checks comes to: the invocations that the host
/// has issued, in order, and the failure that stopped the sequence, if one
/// did.
#[derive(Clone, Debug, PartialEq, Eq)]
pub struct Run {
    pub issued: Vec<Invocation>,
    pub failure: Option<Failure>,
}

/// `Run` as contracts see it.
pub struct RunView {
    pub issued: Seq<InvocationView>,
    pub failure: Option<FailureView>,
}

impl DeepView for Run {
    type V = RunView;

    open spec fn deep_view(&self) -> RunView {
        RunView { issued: self.issued.deep_view(), failure: self.failure.deep_view() }
    }
}

/// Running the first `n` checks of a sequence, one after the other: a check
/// runs only if none before it failed; the first failure is kept, and
/// nothing is issued after it.
pub open spec fn run_up_to(checks: Seq<CheckView>, seen: Seq<ObservationView>, n: nat) -> RunView
    decreases n,
{
    if n == 0 {
        RunView { issued: seq![], failure: None }
    } else {
        let k = (n - 1) as int;
        let before = run_up_to(checks, seen, (n - 1) as nat);
        if before.failure is Some {
            before
        } else {
            match outcome(checks[k], seen[k]) {
                Ok(calls) => RunView { issued: before.issued + calls, failure: None },
                Err(error) => RunView {
                    issued: before.issued,
                    failure: Some(FailureView { index: k, error }),
                },
            }
        }
    }
}

/// Running a whole sequence of checks.
pub open spec fn run_all(checks: Seq<CheckView>, seen: Seq<ObservationView>) -> RunView {
    run_up_to(checks, seen, checks.len())
}

/// Runs the checks of a sequence in order against what the host saw for
/// each, and stops at the first that fails.
pub fn run(checks: &Vec<Check>, seen: &Vec<Observation>) -> (r: Run)
    requires
        checks.len() == seen.len(),
        forall|k: int|
            0 <= k < checks.len() ==> describes(
                (#[trigger] seen.deep_view()[k]),
                checks.deep_view()[k],
            ),
    ensures
        r.deep_view() == run_all(checks.deep_view(), seen.deep_view()),
{
    let mut issued: Vec<Invocation> = Vec::new();
    assert(issued.deep_view() =~= Seq::<InvocationView>::empty());
    let mut i: usize = 0;
    while i < checks.len()
        invariant
            i <= checks.len(),
            checks.len() == seen.len(),
            forall|k: int|
                0 <= k < checks.len() ==> describes(
                    (#[trigger] seen.deep_view()[k]),
                    checks.deep_view()[k],
                ),
            run_up_to(checks.deep_view(), seen.deep_view(), i as nat) == (RunView {
                issued: issued.deep_view(),
                failure: None,
            }),
        decreases checks.len() - i,
    {
        assert(checks[i as int].deep_view() == checks.deep_view()[i as int]);
        assert(seen[i as int].deep_view() == seen.deep_view()[i as int]);
        let ghost before = issued.deep_view();
        match evaluate(&checks[i], &seen[i]) {
            Ok(calls) => {
                let ghost added = calls.deep_view();
                let mut calls = calls;
                issued.append(&mut calls);
                assert(issued.deep_view() =~= before + added);
            },
            Err(error) => {
                let r = Run { issued, failure: Some(Failure { index: i, error }) };
                proof {
                    lemma_stays_failed(checks.deep_view(), seen.deep_view(), (i + 1) as nat, checks.len() as nat);
                }
                return r;
            },
        }
        i += 1;
    }
    Run { issued, failure: None }
}

/// Once a sequence has failed, running further checks changes nothing.
pub proof fn lemma_stays_failed(checks: Seq<CheckView>, seen: Seq<ObservationView>, m: nat, n: nat)
    requires
        m <= n,
        run_up_to(checks, seen, m).failure is Some,
    ensures
        run_up_to(checks, seen, n) == run_up_to(checks, seen, m),
    decreases n,
{
    if m < n {
        lemma_stays_failed(checks, seen, m, (n - 1) as nat);
    }
}

/// The sequence fails fast. If it stopped, every check before the failing
/// one passed, the failing check raised exactly the error that is reported,
/// and no invocation of a later check was issued. If it did not stop, every
/// check passed.
pub proof fn lemma_fail_fast(checks: Seq<CheckView>, seen: Seq<ObservationView>, n: nat)
    ensures
        match run_up_to(checks, seen, n).failure {
            Some(f) => {
                &&& 0 <= f.index < n
                &&& outcome(checks[f.index], seen[f.index]) == Err::<Seq<InvocationView>, ErrorExprView>(
                    f.error,
                )
                &&& forall|k: int| 0 <= k < f.index ==> (#[trigger] outcome(checks[k], seen[k])) is Ok
                &&& run_up_to(checks, seen, n).issued == run_up_to(checks, seen, f.index as nat).issued
                &&& run_up_to(checks, seen, f.index as nat).failure is None
            },
            None => forall|k: int| 0 <= k < n ==> (#[trigger] outcome(checks[k], seen[k])) is Ok,
        },
    decreases n,
{
    if n > 0 {
        lemma_fail_fast(checks, seen, (n - 1) as nat);
    }
}

} // verus!
