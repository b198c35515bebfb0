use account_constraints::address::{system_program, Address};
use account_constraints::checks::{Bump, Check};
use account_constraints::creator::{Call, Initialization, Invocation, Setup};
use account_constraints::emit::generate;
use account_constraints::errors::{ErrorExpr, ErrorKind};
use account_constraints::field::{Field, Ty};
use account_constraints::group::ConstraintGroup;
use account_constraints::model::{
    ConstraintHasOne, ConstraintInitGroup, ConstraintMut, ConstraintOwner, ConstraintRaw,
    ConstraintRentExempt, ConstraintSeedsGroup, ConstraintSigner, InitKind,
};
use account_constraints::pda::{derive_address, BumpValue};
use account_constraints::run::{discriminator, evaluate, run, Failure, Observation, Run};

fn addr(tag: u8) -> Address {
    Address::new([tag; 32])
}

fn s(text: &str) -> String {
    text.to_string()
}

fn default(kind: ErrorKind) -> ErrorExpr {
    ErrorExpr::Default(kind)
}

fn passed() -> Result<Vec<Invocation>, ErrorExpr> {
    Ok(vec![])
}

fn rent_check() -> Check {
    Check::RentExempt { field: s("a"), error: default(ErrorKind::InsufficientRentExemption) }
}

#[test]
fn rent_exemption_fails_below_the_minimum_balance_only() {
    let min_balance = 1_002_240;
    for lamports in [0, 1, 1_002_239] {
        assert_eq!(
            evaluate(&rent_check(), &Observation::RentExempt { lamports, min_balance }),
            Err(default(ErrorKind::InsufficientRentExemption))
        );
    }
    for lamports in [1_002_240, 1_002_241, u64::MAX] {
        assert_eq!(evaluate(&rent_check(), &Observation::RentExempt { lamports, min_balance }), passed());
    }
    assert_eq!(evaluate(&rent_check(), &Observation::RentExempt { lamports: 0, min_balance: 0 }), passed());
}

#[test]
fn skipped_rent_exemption_never_fails() {
    let mut constraints = ConstraintGroup::empty();
    constraints.rent_exempt = Some(ConstraintRentExempt::Skip);
    let compiled = generate(&Field { ident: s("a"), ty: Ty::AccountInfo, constraints });
    assert_eq!(compiled.checks, vec![Check::Nothing]);
    for seen in [
        Observation::Nothing,
        Observation::RentExempt { lamports: 0, min_balance: u64::MAX },
        Observation::RentExempt { lamports: 5, min_balance: 5 },
    ] {
        assert!(seen.describes(&compiled.checks[0]));
        assert_eq!(evaluate(&compiled.checks[0], &seen), passed());
    }
}

#[test]
fn has_one_fails_where_the_stored_reference_is_another_key() {
    let mut constraints = ConstraintGroup::empty();
    constraints.has_one = vec![ConstraintHasOne { join_target: s("y"), error: None }];
    let x = Field { ident: s("x"), ty: Ty::Account(s("Data")), constraints };
    let y = Field { ident: s("y"), ty: Ty::AccountInfo, constraints: ConstraintGroup::empty() };
    // Whichever field comes first, the check of `x` is the only one there is.
    for order in [[&x, &y], [&y, &x]] {
        let checks: Vec<Check> = order.iter().flat_map(|f| generate(f).checks).collect();
        assert_eq!(checks.len(), 1);
        assert_eq!(
            evaluate(&checks[0], &Observation::HasOne { stored: addr(1), target: addr(2) }),
            Err(default(ErrorKind::ReferencedFieldMismatch))
        );
        assert_eq!(
            evaluate(&checks[0], &Observation::HasOne { stored: addr(2), target: addr(2) }),
            passed()
        );
    }
}

#[test]
fn has_one_raises_the_custom_error() {
    let check = Check::HasOne {
        field: s("x"),
        load: true,
        target: s("y"),
        error: ErrorExpr::Custom(s("MyError::WrongAuthority")),
    };
    assert_eq!(
        evaluate(&check, &Observation::HasOne { stored: addr(1), target: addr(2) }),
        Err(ErrorExpr::Custom(s("MyError::WrongAuthority")))
    );
}

#[test]
fn flag_checks() {
    let writable = Check::Mut { field: s("a"), error: default(ErrorKind::NotWritable) };
    assert_eq!(evaluate(&writable, &Observation::Mut { is_writable: true }), passed());
    assert_eq!(
        evaluate(&writable, &Observation::Mut { is_writable: false }),
        Err(default(ErrorKind::NotWritable))
    );
    let signer =
        Check::Signer { field: s("a"), through_handle: true, error: default(ErrorKind::NotSigner) };
    assert_eq!(evaluate(&signer, &Observation::Signer { is_signer: true }), passed());
    assert_eq!(
        evaluate(&signer, &Observation::Signer { is_signer: false }),
        Err(default(ErrorKind::NotSigner))
    );
    let executable = Check::Executable { field: s("a"), error: default(ErrorKind::NotExecutable) };
    assert_eq!(evaluate(&executable, &Observation::Executable { executable: true }), passed());
    assert_eq!(
        evaluate(&executable, &Observation::Executable { executable: false }),
        Err(default(ErrorKind::NotExecutable))
    );
}

#[test]
fn key_and_owner_checks() {
    let owner = Check::Owner { field: s("a"), owner: s("o"), error: default(ErrorKind::OwnerMismatch) };
    assert_eq!(evaluate(&owner, &Observation::Owner { owner: addr(1), expected: addr(1) }), passed());
    assert_eq!(
        evaluate(&owner, &Observation::Owner { owner: addr(1), expected: addr(2) }),
        Err(default(ErrorKind::OwnerMismatch))
    );
    let address =
        Check::Address { field: s("a"), address: s("A"), error: default(ErrorKind::AddressMismatch) };
    assert_eq!(evaluate(&address, &Observation::Address { key: addr(1), expected: addr(1) }), passed());
    assert_eq!(
        evaluate(&address, &Observation::Address { key: addr(1), expected: addr(2) }),
        Err(default(ErrorKind::AddressMismatch))
    );
}

#[test]
fn close_fails_where_the_account_is_its_own_destination() {
    let close =
        Check::Close { field: s("a"), sol_dest: s("b"), error: default(ErrorKind::CloseTargetIsSelf) };
    assert_eq!(
        evaluate(&close, &Observation::Close { key: addr(1), destination: addr(1) }),
        Err(default(ErrorKind::CloseTargetIsSelf))
    );
    assert_eq!(evaluate(&close, &Observation::Close { key: addr(1), destination: addr(2) }), passed());
}

#[test]
fn zeroed_fails_on_a_type_tag() {
    let zeroed = Check::Zeroed { field: s("a"), error: default(ErrorKind::AlreadyInitialized) };
    assert_eq!(evaluate(&zeroed, &Observation::Zeroed { discriminator: 0 }), passed());
    assert_eq!(
        evaluate(&zeroed, &Observation::Zeroed { discriminator: 1 }),
        Err(default(ErrorKind::AlreadyInitialized))
    );
}

#[test]
fn state_needs_the_canonical_key_and_the_program_as_owner() {
    let state = Check::State {
        field: s("a"),
        account_ty: s("T"),
        program_target: s("p"),
        error: default(ErrorKind::CanonicalStateMismatch),
    };
    let seen = |key: u8, owner: u8| Observation::State {
        key: addr(key),
        owner: addr(owner),
        canonical: addr(1),
        program: addr(2),
    };
    assert_eq!(evaluate(&state, &seen(1, 2)), passed());
    assert_eq!(evaluate(&state, &seen(3, 2)), Err(default(ErrorKind::CanonicalStateMismatch)));
    assert_eq!(evaluate(&state, &seen(1, 3)), Err(default(ErrorKind::CanonicalStateMismatch)));
}

#[test]
fn expressions_fail_where_they_are_false() {
    let raw = Check::Raw { condition: s("x"), error: default(ErrorKind::RawExpressionFalse) };
    assert_eq!(evaluate(&raw, &Observation::Condition { holds: true }), passed());
    assert_eq!(
        evaluate(&raw, &Observation::Condition { holds: false }),
        Err(default(ErrorKind::RawExpressionFalse))
    );
    let literal = Check::Literal {
        condition: s("x"),
        warning: s("w"),
        error: default(ErrorKind::DeprecatedLiteralFalse),
    };
    assert_eq!(
        evaluate(&literal, &Observation::Condition { holds: false }),
        Err(default(ErrorKind::DeprecatedLiteralFalse))
    );
}

#[test]
fn seeds_check_runs_the_derivation() {
    let program = addr(42);
    let seeds = vec![b"vault".to_vec()];
    let (key, bump) = derive_address(&seeds, &program).unwrap();
    let check = |bump: Bump| Check::Seeds {
        field: s("a"),
        seeds: vec![s("b\"vault\"")],
        bump,
        error: default(ErrorKind::DerivedAddressMismatch),
    };
    let seen = |key: Address, bump: BumpValue| Observation::Seeds {
        key,
        program_id: program,
        seeds: seeds.clone(),
        bump,
    };
    assert_eq!(evaluate(&check(Bump::Canonical), &seen(key, BumpValue::Canonical)), passed());
    assert_eq!(evaluate(&check(Bump::Given(s("b"))), &seen(key, BumpValue::Given(bump))), passed());
    assert_eq!(
        evaluate(&check(Bump::GivenCanonical(s("b"))), &seen(key, BumpValue::GivenCanonical(bump))),
        passed()
    );
    assert_eq!(
        evaluate(&check(Bump::Given(s("b"))), &seen(key, BumpValue::Given(bump - 1))),
        Err(default(ErrorKind::DerivedAddressMismatch))
    );
    assert_eq!(
        evaluate(&check(Bump::Canonical), &seen(addr(1), BumpValue::Canonical)),
        Err(default(ErrorKind::DerivedAddressMismatch))
    );
}

#[test]
fn associated_token_check_runs_the_derivation() {
    let check = Check::AssociatedToken {
        field: s("a"),
        wallet: s("w"),
        mint: s("m"),
        error: default(ErrorKind::AssociatedAddressMismatch),
    };
    let seeds = vec![vec![10u8; 32], vec![12u8; 32], vec![11u8; 32]];
    let (key, _) = derive_address(&seeds, &addr(13)).unwrap();
    let seen = |key: Address| Observation::AssociatedToken {
        key,
        wallet: addr(10),
        mint: addr(11),
        token_program: addr(12),
        associated_token_program: addr(13),
    };
    assert_eq!(evaluate(&check, &seen(key)), passed());
    assert_eq!(evaluate(&check, &seen(addr(1))), Err(default(ErrorKind::AssociatedAddressMismatch)));
}

#[test]
fn observations_describe_checks_of_their_kind() {
    let writable = Check::Mut { field: s("a"), error: default(ErrorKind::NotWritable) };
    assert!(Observation::Mut { is_writable: false }.describes(&writable));
    assert!(!Observation::Signer { is_signer: false }.describes(&writable));
    assert!(!Observation::Nothing.describes(&writable));
    let seeds = Check::Seeds {
        field: s("a"),
        seeds: vec![],
        bump: Bump::Given(s("b")),
        error: default(ErrorKind::DerivedAddressMismatch),
    };
    let seen = |bump: BumpValue| Observation::Seeds { key: addr(1), program_id: addr(2), seeds: vec![], bump };
    assert!(seen(BumpValue::Given(3)).describes(&seeds));
    assert!(!seen(BumpValue::Canonical).describes(&seeds));
    assert!(!seen(BumpValue::GivenCanonical(3)).describes(&seeds));
}

fn guarded_field() -> Field {
    let mut constraints = ConstraintGroup::empty();
    constraints.raw = vec![ConstraintRaw { raw: s("data.open"), error: None }];
    constraints.owner = Some(ConstraintOwner { owner_address: s("crate::ID"), error: Some(s("E::Owner")) });
    constraints.has_one = vec![ConstraintHasOne { join_target: s("authority"), error: None }];
    constraints.signer = Some(ConstraintSigner { error: None });
    constraints.mutable = Some(ConstraintMut { error: None });
    Field { ident: s("data"), ty: Ty::Account(s("Data")), constraints }
}

fn guarded_seen(writable: bool, signer: bool, stored: u8, holds: bool, owner: u8) -> Vec<Observation> {
    vec![
        Observation::Mut { is_writable: writable },
        Observation::Signer { is_signer: signer },
        Observation::HasOne { stored: addr(stored), target: addr(5) },
        Observation::Condition { holds },
        Observation::Owner { owner: addr(owner), expected: addr(9) },
    ]
}

#[test]
fn a_sequence_that_passes_issues_nothing_and_reports_no_failure() {
    let compiled = generate(&guarded_field());
    let outcome = run(&compiled.checks, &guarded_seen(true, true, 5, true, 9));
    assert_eq!(outcome, Run { issued: vec![], failure: None });
}

#[test]
fn a_sequence_stops_at_its_first_failure() {
    let compiled = generate(&guarded_field());
    // Everything is wrong: the cheap authority check is the one that is reported.
    let outcome = run(&compiled.checks, &guarded_seen(false, false, 4, false, 8));
    assert_eq!(
        outcome.failure,
        Some(Failure { index: 0, error: default(ErrorKind::NotWritable) })
    );
    let outcome = run(&compiled.checks, &guarded_seen(true, false, 4, false, 8));
    assert_eq!(outcome.failure, Some(Failure { index: 1, error: default(ErrorKind::NotSigner) }));
    let outcome = run(&compiled.checks, &guarded_seen(true, true, 4, false, 8));
    assert_eq!(
        outcome.failure,
        Some(Failure { index: 2, error: default(ErrorKind::ReferencedFieldMismatch) })
    );
    let outcome = run(&compiled.checks, &guarded_seen(true, true, 5, false, 8));
    assert_eq!(
        outcome.failure,
        Some(Failure { index: 3, error: default(ErrorKind::RawExpressionFalse) })
    );
    let outcome = run(&compiled.checks, &guarded_seen(true, true, 5, true, 8));
    assert_eq!(outcome.failure, Some(Failure { index: 4, error: ErrorExpr::Custom(s("E::Owner")) }));
}

#[test]
fn invocations_before_a_failure_stay_issued_and_none_follow() {
    let mut constraints = ConstraintGroup::empty();
    constraints.init = Some(ConstraintInitGroup {
        if_needed: false,
        seeds: Some(ConstraintSeedsGroup { is_init: true, seeds: vec![s("b\"d\"")], bump: None }),
        payer: s("payer"),
        space: Some(s("8")),
        kind: InitKind::Program { owner: None },
    });
    constraints.seeds =
        Some(ConstraintSeedsGroup { is_init: true, seeds: vec![s("b\"d\"")], bump: None });
    constraints.mutable = Some(ConstraintMut { error: None });
    let field = Field { ident: s("data"), ty: Ty::Account(s("Data")), constraints };
    let compiled = generate(&field);
    assert_eq!(compiled.checks.len(), 3);

    let program = addr(42);
    let seeds = vec![b"d".to_vec()];
    let (key, bump) = derive_address(&seeds, &program).unwrap();
    let signer_seeds = vec![b"d".to_vec(), vec![bump]];
    let init = Observation::Init(Initialization {
        if_needed: false,
        target: key,
        target_owner: system_program(),
        target_lamports: 0,
        payer: addr(2),
        min_balance: 900,
        signer_seeds: Some(signer_seeds.clone()),
        setup: Setup::Program { space: 8, owner: program },
    });
    let created = Invocation {
        call: Call::CreateAccount { from: addr(2), to: key, lamports: 900, space: 8, owner: program },
        signer_seeds: Some(signer_seeds),
    };
    let seen = vec![
        init.clone(),
        Observation::Seeds { key, program_id: program, seeds: seeds.clone(), bump: BumpValue::Canonical },
        Observation::Mut { is_writable: false },
    ];
    let outcome = run(&compiled.checks, &seen);
    assert_eq!(outcome.issued, vec![created.clone()]);
    assert_eq!(outcome.failure, Some(Failure { index: 2, error: default(ErrorKind::NotWritable) }));

    let seen = vec![
        init,
        Observation::Seeds { key: addr(1), program_id: program, seeds, bump: BumpValue::Canonical },
        Observation::Mut { is_writable: true },
    ];
    let outcome = run(&compiled.checks, &seen);
    assert_eq!(outcome.issued, vec![created]);
    assert_eq!(
        outcome.failure,
        Some(Failure { index: 1, error: default(ErrorKind::DerivedAddressMismatch) })
    );
}

#[test]
fn an_empty_sequence_passes() {
    assert_eq!(run(&vec![], &vec![]), Run { issued: vec![], failure: None });
}

#[test]
fn discriminator_is_read_from_the_first_eight_bytes() {
    assert_eq!(discriminator(&[0; 8]), 0);
    assert_eq!(discriminator(&[0, 0, 0, 0, 0, 0, 0, 0, 9, 9]), 0);
    assert_eq!(discriminator(&[1, 0, 0, 0, 0, 0, 0, 0]), 1);
    assert_eq!(discriminator(&[0, 1, 0, 0, 0, 0, 0, 0, 5]), 256);
    assert_eq!(discriminator(&[0xef, 0xcd, 0xab, 0x89, 0x67, 0x45, 0x23, 0x01]), 0x0123_4567_89ab_cdef);
    assert_eq!(discriminator(&[255; 8]), u64::MAX);
}
