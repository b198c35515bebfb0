use account_constraints::checks::{
    Bump, Check, CreateAccount, FieldChecks, InitPlan, Owner, SignerSeeds, Space, Strategy,
};
use account_constraints::emit::{
    generate, generate_composite, generate_constraint, generate_constraint_address,
    generate_constraint_associated_token, generate_constraint_close,
    generate_constraint_composite, generate_constraint_executable, generate_constraint_has_one,
    generate_constraint_literal, generate_constraint_mut, generate_constraint_owner,
    generate_constraint_raw, generate_constraint_rent_exempt, generate_constraint_seeds,
    generate_constraint_signer, generate_constraint_state, generate_constraint_zeroed,
    is_expression_only, is_valid_field,
};
use account_constraints::errors::{generate_custom_error, ErrorExpr, ErrorKind};
use account_constraints::field::{CompositeField, Field, Ty};
use account_constraints::group::{Constraint, ConstraintGroup};
use account_constraints::init::{
    generate_constraint_init, generate_constraint_init_group, generate_create_account,
    generate_init,
};
use account_constraints::model::{
    ConstraintAddress, ConstraintAssociatedToken, ConstraintClose, ConstraintDup,
    ConstraintExecutable, ConstraintHasOne, ConstraintInitGroup, ConstraintLiteral, ConstraintMut,
    ConstraintOwner, ConstraintRaw, ConstraintRentExempt, ConstraintSeedsGroup, ConstraintSigner,
    ConstraintState, ConstraintZeroed, InitKind,
};

fn s(text: &str) -> String {
    text.to_string()
}

fn field(ident: &str, ty: Ty) -> Field {
    Field { ident: s(ident), ty, constraints: ConstraintGroup::empty() }
}

fn default(kind: ErrorKind) -> ErrorExpr {
    ErrorExpr::Default(kind)
}

#[test]
fn custom_error_replaces_the_default() {
    assert_eq!(
        generate_custom_error(&Some(s("MyError::Locked")), ErrorKind::NotWritable),
        ErrorExpr::Custom(s("MyError::Locked"))
    );
    assert_eq!(generate_custom_error(&None, ErrorKind::NotWritable), default(ErrorKind::NotWritable));
}

#[test]
fn error_codes_are_distinct_and_stable() {
    let kinds = [
        ErrorKind::NotWritable,
        ErrorKind::ReferencedFieldMismatch,
        ErrorKind::NotSigner,
        ErrorKind::RawExpressionFalse,
        ErrorKind::OwnerMismatch,
        ErrorKind::InsufficientRentExemption,
        ErrorKind::DerivedAddressMismatch,
        ErrorKind::NotExecutable,
        ErrorKind::CanonicalStateMismatch,
        ErrorKind::AssociatedAddressMismatch,
        ErrorKind::CloseTargetIsSelf,
        ErrorKind::AddressMismatch,
        ErrorKind::AlreadyInitialized,
        ErrorKind::DuplicateAccount,
        ErrorKind::DeprecatedLiteralFalse,
    ];
    for (i, a) in kinds.iter().enumerate() {
        assert_eq!(ErrorKind::from_code(a.code()), Some(*a));
        for (j, b) in kinds.iter().enumerate() {
            assert_eq!(a.code() == b.code(), i == j);
        }
    }
    assert_eq!(ErrorKind::NotWritable.code(), 2000);
    assert_eq!(ErrorKind::DerivedAddressMismatch.code(), 2006);
    assert_eq!(ErrorKind::DeprecatedLiteralFalse.code(), 5000);
    assert_eq!(ErrorKind::from_code(1999), None);
    assert_eq!(ErrorKind::from_code(2010), None);
}

#[test]
fn mut_check_with_default_and_custom_error() {
    let f = field("vault", Ty::AccountInfo);
    assert_eq!(
        generate_constraint_mut(&f, &ConstraintMut { error: None }),
        Check::Mut { field: s("vault"), error: default(ErrorKind::NotWritable) }
    );
    assert_eq!(
        generate_constraint_mut(&f, &ConstraintMut { error: Some(s("E::A")) }),
        Check::Mut { field: s("vault"), error: ErrorExpr::Custom(s("E::A")) }
    );
}

#[test]
fn signer_check_reads_the_plain_handle_under_a_typed_account() {
    let plain = field("authority", Ty::AccountInfo);
    assert_eq!(
        generate_constraint_signer(&plain, &ConstraintSigner { error: None }),
        Check::Signer {
            field: s("authority"),
            through_handle: false,
            error: default(ErrorKind::NotSigner)
        }
    );
    for ty in [
        Ty::ProgramAccount(s("Data")),
        Ty::Account(s("Data")),
        Ty::Loader(s("Data")),
        Ty::AccountLoader(s("Data")),
        Ty::CpiAccount(s("Data")),
    ] {
        let typed = field("authority", ty);
        assert_eq!(
            generate_constraint_signer(&typed, &ConstraintSigner { error: Some(s("E::S")) }),
            Check::Signer {
                field: s("authority"),
                through_handle: true,
                error: ErrorExpr::Custom(s("E::S"))
            }
        );
    }
}

#[test]
fn signer_is_not_valid_on_a_type_without_handle() {
    for ty in [Ty::Signer, Ty::Program(s("System")), Ty::Sysvar(s("Rent")), Ty::UncheckedAccount] {
        let mut f = field("authority", ty);
        f.constraints.signer = Some(ConstraintSigner { error: None });
        assert!(!is_valid_field(&f));
    }
    let mut f = field("authority", Ty::AccountInfo);
    f.constraints.signer = Some(ConstraintSigner { error: None });
    assert!(is_valid_field(&f));
}

#[test]
fn has_one_check_loads_zero_copy_content() {
    let c = ConstraintHasOne { join_target: s("authority"), error: None };
    assert_eq!(
        generate_constraint_has_one(&field("data", Ty::Account(s("Data"))), &c),
        Check::HasOne {
            field: s("data"),
            load: false,
            target: s("authority"),
            error: default(ErrorKind::ReferencedFieldMismatch)
        }
    );
    for ty in [Ty::Loader(s("Data")), Ty::AccountLoader(s("Data"))] {
        assert_eq!(
            generate_constraint_has_one(&field("data", ty), &c),
            Check::HasOne {
                field: s("data"),
                load: true,
                target: s("authority"),
                error: default(ErrorKind::ReferencedFieldMismatch)
            }
        );
    }
}

#[test]
fn has_one_check_is_the_same_wherever_the_field_stands() {
    let c = ConstraintHasOne { join_target: s("y"), error: None };
    let mut x = field("x", Ty::Account(s("Data")));
    x.constraints.has_one = vec![c];
    let y = field("y", Ty::AccountInfo);
    let x_first: Vec<FieldChecks> = [&x, &y].iter().map(|f| generate(f)).collect();
    let y_first: Vec<FieldChecks> = [&y, &x].iter().map(|f| generate(f)).collect();
    assert_eq!(x_first[0], y_first[1]);
    assert_eq!(x_first[1], y_first[0]);
    assert_eq!(
        x_first[0].checks,
        vec![Check::HasOne {
            field: s("x"),
            load: false,
            target: s("y"),
            error: default(ErrorKind::ReferencedFieldMismatch)
        }]
    );
}

#[test]
fn literal_check_strips_quotes_and_warns() {
    let check = generate_constraint_literal(&ConstraintLiteral { lit: s("name == \"vault\"") });
    assert_eq!(
        check,
        Check::Literal {
            condition: s("name == vault"),
            warning: s(
                "Deprecated. Should be used with constraint: #[account(constraint = name == vault)]"
            ),
            error: default(ErrorKind::DeprecatedLiteralFalse)
        }
    );
}

#[test]
fn literal_without_quotes_is_kept() {
    let check = generate_constraint_literal(&ConstraintLiteral { lit: s("a.b > 1") });
    assert_eq!(
        check,
        Check::Literal {
            condition: s("a.b > 1"),
            warning: s("Deprecated. Should be used with constraint: #[account(constraint = a.b > 1)]"),
            error: default(ErrorKind::DeprecatedLiteralFalse)
        }
    );
}

#[test]
fn raw_owner_and_address_checks() {
    let f = field("vault", Ty::AccountInfo);
    assert_eq!(
        generate_constraint_raw(&ConstraintRaw { raw: s("a.amount > 0"), error: None }),
        Check::Raw { condition: s("a.amount > 0"), error: default(ErrorKind::RawExpressionFalse) }
    );
    assert_eq!(
        generate_constraint_raw(&ConstraintRaw { raw: s("ok"), error: Some(s("E::No")) }),
        Check::Raw { condition: s("ok"), error: ErrorExpr::Custom(s("E::No")) }
    );
    assert_eq!(
        generate_constraint_owner(&f, &ConstraintOwner { owner_address: s("token::ID"), error: None }),
        Check::Owner {
            field: s("vault"),
            owner: s("token::ID"),
            error: default(ErrorKind::OwnerMismatch)
        }
    );
    assert_eq!(
        generate_constraint_address(&f, &ConstraintAddress { address: s("ADMIN"), error: Some(s("E::X")) }),
        Check::Address { field: s("vault"), address: s("ADMIN"), error: ErrorExpr::Custom(s("E::X")) }
    );
}

#[test]
fn rent_exempt_enforce_checks_and_skip_emits_nothing() {
    let f = field("vault", Ty::AccountInfo);
    assert_eq!(
        generate_constraint_rent_exempt(&f, &ConstraintRentExempt::Enforce),
        Check::RentExempt { field: s("vault"), error: default(ErrorKind::InsufficientRentExemption) }
    );
    assert_eq!(generate_constraint_rent_exempt(&f, &ConstraintRentExempt::Skip), Check::Nothing);
}

#[test]
fn fixed_error_checks() {
    let f = field("vault", Ty::AccountInfo);
    assert_eq!(
        generate_constraint_zeroed(&f, &ConstraintZeroed {}),
        Check::Zeroed { field: s("vault"), error: default(ErrorKind::AlreadyInitialized) }
    );
    assert_eq!(
        generate_constraint_close(&f, &ConstraintClose { sol_dest: s("receiver") }),
        Check::Close {
            field: s("vault"),
            sol_dest: s("receiver"),
            error: default(ErrorKind::CloseTargetIsSelf)
        }
    );
    assert_eq!(
        generate_constraint_executable(&f, &ConstraintExecutable {}),
        Check::Executable { field: s("vault"), error: default(ErrorKind::NotExecutable) }
    );
    assert_eq!(
        generate_constraint_associated_token(
            &f,
            &ConstraintAssociatedToken { wallet: s("user"), mint: s("mint") }
        ),
        Check::AssociatedToken {
            field: s("vault"),
            wallet: s("user"),
            mint: s("mint"),
            error: default(ErrorKind::AssociatedAddressMismatch)
        }
    );
}

#[test]
fn state_check_names_the_account_type() {
    let f = field("state", Ty::CpiState(s("other::State")));
    assert_eq!(
        generate_constraint_state(&f, &ConstraintState { program_target: s("other_program") }),
        Check::State {
            field: s("state"),
            account_ty: s("other::State"),
            program_target: s("other_program"),
            error: default(ErrorKind::CanonicalStateMismatch)
        }
    );
    let mut wrong = field("state", Ty::Account(s("State")));
    wrong.constraints.state = Some(ConstraintState { program_target: s("p") });
    assert!(!is_valid_field(&wrong));
}

#[test]
fn seeds_check_by_bump_and_init() {
    let f = field("pda", Ty::AccountInfo);
    let seeds = vec![s("b\"vault\""), s("user.key().as_ref()")];
    let expect = |bump: Bump| Check::Seeds {
        field: s("pda"),
        seeds: seeds.clone(),
        bump,
        error: default(ErrorKind::DerivedAddressMismatch),
    };
    let group = |is_init: bool, bump: Option<&str>| ConstraintSeedsGroup {
        is_init,
        seeds: seeds.clone(),
        bump: bump.map(s),
    };
    assert_eq!(generate_constraint_seeds(&f, &group(false, None)), expect(Bump::Canonical));
    assert_eq!(generate_constraint_seeds(&f, &group(true, None)), expect(Bump::Canonical));
    assert_eq!(generate_constraint_seeds(&f, &group(false, Some("bump"))), expect(Bump::Given(s("bump"))));
    assert_eq!(
        generate_constraint_seeds(&f, &group(true, Some("bump"))),
        expect(Bump::GivenCanonical(s("bump")))
    );
}

#[test]
fn seeds_check_with_empty_seed_list() {
    let f = field("pda", Ty::AccountInfo);
    let c = ConstraintSeedsGroup { is_init: false, seeds: vec![], bump: None };
    assert_eq!(
        generate_constraint_seeds(&f, &c),
        Check::Seeds {
            field: s("pda"),
            seeds: vec![],
            bump: Bump::Canonical,
            error: default(ErrorKind::DerivedAddressMismatch)
        }
    );
}

#[test]
fn dup_emits_nothing_in_the_field_sequence() {
    let f = field("a", Ty::AccountInfo);
    assert_eq!(
        generate_constraint(&f, &Constraint::Dup(ConstraintDup { target: s("b") })),
        Check::Nothing
    );
}

#[test]
fn create_account_plan_holds_what_it_was_given() {
    let signer = SignerSeeds { seeds: vec![s("b\"x\"")], bump: Some(s("bump")) };
    assert_eq!(
        generate_create_account(&s("vault"), Space::Mint, Owner::TokenProgram, Some(signer.clone())),
        CreateAccount {
            field: s("vault"),
            space: Space::Mint,
            owner: Owner::TokenProgram,
            signer: Some(signer)
        }
    );
    assert_eq!(
        generate_create_account(&s("vault"), Space::Explicit(s("8 + 32")), Owner::Program, None),
        CreateAccount {
            field: s("vault"),
            space: Space::Explicit(s("8 + 32")),
            owner: Owner::Program,
            signer: None
        }
    );
}

#[test]
fn init_program_with_explicit_space_and_default_owner() {
    let f = field("data", Ty::Account(s("Data")));
    let plan = generate_init(
        &f,
        false,
        None,
        s("payer"),
        &Some(s("16")),
        &InitKind::Program { owner: None },
    );
    assert_eq!(
        plan,
        InitPlan {
            field: s("data"),
            if_needed: false,
            payer: s("payer"),
            strategy: Strategy::Program {
                create: CreateAccount {
                    field: s("data"),
                    space: Space::Explicit(s("16")),
                    owner: Owner::Program,
                    signer: None
                }
            }
        }
    );
}

#[test]
fn init_program_without_space_takes_it_from_the_account_type() {
    let kind = InitKind::Program { owner: Some(s("other::ID")) };
    let plan = generate_init(&field("data", Ty::Account(s("Data"))), true, None, s("payer"), &None, &kind);
    assert_eq!(
        plan.strategy,
        Strategy::Program {
            create: CreateAccount {
                field: s("data"),
                space: Space::Serialized(s("Data")),
                owner: Owner::Expr(s("other::ID")),
                signer: None
            }
        }
    );
    assert!(plan.if_needed);
    for ty in [Ty::Loader(s("Big")), Ty::AccountLoader(s("Big"))] {
        let plan = generate_init(&field("data", ty), false, None, s("payer"), &None, &kind);
        assert_eq!(
            plan.strategy,
            Strategy::Program {
                create: CreateAccount {
                    field: s("data"),
                    space: Space::ZeroCopy(s("Big")),
                    owner: Owner::Expr(s("other::ID")),
                    signer: None
                }
            }
        );
    }
}

#[test]
fn init_program_without_space_needs_an_account_type() {
    let mut f = field("data", Ty::AccountInfo);
    f.constraints.init = Some(ConstraintInitGroup {
        if_needed: false,
        seeds: None,
        payer: s("payer"),
        space: None,
        kind: InitKind::Program { owner: None },
    });
    assert!(!is_valid_field(&f));
    f.constraints.init.as_mut().unwrap().space = Some(s("8"));
    assert!(is_valid_field(&f));
}

#[test]
fn init_token_and_mint_use_fixed_layouts_and_the_token_program() {
    let f = field("vault", Ty::Account(s("TokenAccount")));
    let signer = SignerSeeds { seeds: vec![s("b\"v\"")], bump: None };
    let token = generate_init(
        &f,
        false,
        Some(signer.clone()),
        s("payer"),
        &Some(s("999")),
        &InitKind::Token { owner: s("authority"), mint: s("mint") },
    );
    assert_eq!(
        token.strategy,
        Strategy::Token {
            owner: s("authority"),
            mint: s("mint"),
            create: CreateAccount {
                field: s("vault"),
                space: Space::TokenAccount,
                owner: Owner::TokenProgram,
                signer: Some(signer.clone())
            }
        }
    );
    let mint = generate_init(
        &f,
        false,
        None,
        s("payer"),
        &None,
        &InitKind::Mint { owner: s("authority"), freeze_authority: Some(s("freezer")), decimals: 6 },
    );
    assert_eq!(
        mint.strategy,
        Strategy::Mint {
            owner: s("authority"),
            decimals: 6,
            freeze_authority: Some(s("freezer")),
            create: CreateAccount {
                field: s("vault"),
                space: Space::Mint,
                owner: Owner::TokenProgram,
                signer: None
            }
        }
    );
}

#[test]
fn init_associated_token_is_a_single_call_without_creation() {
    let f = field("ata", Ty::Account(s("TokenAccount")));
    let plan = generate_init(
        &f,
        true,
        Some(SignerSeeds { seeds: vec![s("b\"v\"")], bump: None }),
        s("payer"),
        &None,
        &InitKind::AssociatedToken { owner: s("user"), mint: s("mint") },
    );
    assert_eq!(
        plan,
        InitPlan {
            field: s("ata"),
            if_needed: true,
            payer: s("payer"),
            strategy: Strategy::AssociatedToken { owner: s("user"), mint: s("mint") }
        }
    );
}

#[test]
fn init_group_hands_its_seeds_to_the_creator() {
    let f = field("pda", Ty::Account(s("Data")));
    let group = |bump: Option<&str>| ConstraintInitGroup {
        if_needed: false,
        seeds: Some(ConstraintSeedsGroup {
            is_init: true,
            seeds: vec![s("b\"a\""), s("b\"b\"")],
            bump: bump.map(s),
        }),
        payer: s("funder"),
        space: Some(s("40")),
        kind: InitKind::Program { owner: None },
    };
    let expect = |bump: Option<&str>| InitPlan {
        field: s("pda"),
        if_needed: false,
        payer: s("funder"),
        strategy: Strategy::Program {
            create: CreateAccount {
                field: s("pda"),
                space: Space::Explicit(s("40")),
                owner: Owner::Program,
                signer: Some(SignerSeeds { seeds: vec![s("b\"a\""), s("b\"b\"")], bump: bump.map(s) }),
            },
        },
    };
    assert_eq!(generate_constraint_init_group(&f, &group(None)), expect(None));
    assert_eq!(generate_constraint_init_group(&f, &group(Some("nonce"))), expect(Some("nonce")));
    assert_eq!(generate_constraint_init(&f, &group(None)), Check::Init(expect(None)));
}

#[test]
fn generate_emits_the_checks_in_linear_order() {
    let mut f = field("data", Ty::Account(s("Data")));
    f.constraints.address = Some(ConstraintAddress { address: s("ADMIN"), error: None });
    f.constraints.has_one = vec![ConstraintHasOne { join_target: s("authority"), error: None }];
    f.constraints.mutable = Some(ConstraintMut { error: None });
    f.constraints.rent_exempt = Some(ConstraintRentExempt::Enforce);
    f.constraints.seeds =
        Some(ConstraintSeedsGroup { is_init: false, seeds: vec![s("b\"d\"")], bump: None });
    f.constraints.dup = Some(ConstraintDup { target: s("other") });
    assert!(is_valid_field(&f));
    let compiled = generate(&f);
    assert!(compiled.load_rent);
    assert_eq!(
        compiled.checks,
        vec![
            Check::Seeds {
                field: s("data"),
                seeds: vec![s("b\"d\"")],
                bump: Bump::Canonical,
                error: default(ErrorKind::DerivedAddressMismatch)
            },
            Check::Mut { field: s("data"), error: default(ErrorKind::NotWritable) },
            Check::HasOne {
                field: s("data"),
                load: false,
                target: s("authority"),
                error: default(ErrorKind::ReferencedFieldMismatch)
            },
            Check::Nothing,
            Check::RentExempt {
                field: s("data"),
                error: default(ErrorKind::InsufficientRentExemption)
            },
            Check::Address {
                field: s("data"),
                address: s("ADMIN"),
                error: default(ErrorKind::AddressMismatch)
            },
        ]
    );
}

#[test]
fn generate_reads_rent_only_for_an_enforced_check() {
    let mut f = field("data", Ty::AccountInfo);
    assert_eq!(generate(&f), FieldChecks { load_rent: false, checks: vec![] });
    f.constraints.rent_exempt = Some(ConstraintRentExempt::Skip);
    assert_eq!(generate(&f), FieldChecks { load_rent: false, checks: vec![Check::Nothing] });
    f.constraints.rent_exempt = Some(ConstraintRentExempt::Enforce);
    assert!(generate(&f).load_rent);
}

#[test]
fn composite_fields_compile_literals_then_raws() {
    let mut group = ConstraintGroup::empty();
    group.raw = vec![ConstraintRaw { raw: s("inner.ok()"), error: Some(s("E::Inner")) }];
    group.literal = vec![ConstraintLiteral { lit: s("\"a\" != b") }];
    let f = CompositeField { ident: s("inner"), symbol: s("Inner"), constraints: group };
    assert!(is_expression_only(&f.constraints));
    let checks = generate_composite(&f);
    assert_eq!(
        checks,
        vec![
            Check::Literal {
                condition: s("a != b"),
                warning: s("Deprecated. Should be used with constraint: #[account(constraint = a != b)]"),
                error: default(ErrorKind::DeprecatedLiteralFalse)
            },
            Check::Raw { condition: s("inner.ok()"), error: ErrorExpr::Custom(s("E::Inner")) },
        ]
    );
    assert_eq!(
        generate_constraint_composite(
            &f,
            &Constraint::Raw(ConstraintRaw { raw: s("x"), error: None })
        ),
        Check::Raw { condition: s("x"), error: default(ErrorKind::RawExpressionFalse) }
    );
}

#[test]
fn composite_fields_take_nothing_but_expressions() {
    let mut group = ConstraintGroup::empty();
    assert!(is_expression_only(&group));
    group.mutable = Some(ConstraintMut { error: None });
    assert!(!is_expression_only(&group));
}

#[test]
fn check_reports_the_error_it_raises() {
    assert_eq!(Check::Nothing.error(), None);
    assert_eq!(
        Check::Mut { field: s("a"), error: ErrorExpr::Custom(s("E::A")) }.error(),
        Some(ErrorExpr::Custom(s("E::A")))
    );
    assert_eq!(
        Check::Executable { field: s("a"), error: default(ErrorKind::NotExecutable) }.error(),
        Some(default(ErrorKind::NotExecutable))
    );
}

fn init_of(kind: InitKind) -> ConstraintInitGroup {
    ConstraintInitGroup { if_needed: false, seeds: None, payer: s("payer"), space: Some(s("16")), kind }
}

#[test]
fn generate_reads_rent_for_every_account_that_the_creator_funds() {
    for kind in [
        InitKind::Program { owner: None },
        InitKind::Token { owner: s("authority"), mint: s("mint") },
        InitKind::Mint { owner: s("authority"), freeze_authority: None, decimals: 0 },
    ] {
        for rent_exempt in [None, Some(ConstraintRentExempt::Skip), Some(ConstraintRentExempt::Enforce)] {
            let mut f = field("data", Ty::Account(s("Data")));
            f.constraints.init = Some(init_of(kind.clone()));
            f.constraints.rent_exempt = rent_exempt;
            assert!(generate(&f).load_rent);
        }
    }
}

#[test]
fn generate_reads_no_rent_for_an_associated_token_account_alone() {
    let kind = InitKind::AssociatedToken { owner: s("user"), mint: s("mint") };
    let mut f = field("ata", Ty::Account(s("TokenAccount")));
    f.constraints.init = Some(init_of(kind));
    assert!(!generate(&f).load_rent);
    f.constraints.rent_exempt = Some(ConstraintRentExempt::Skip);
    assert!(!generate(&f).load_rent);
    f.constraints.rent_exempt = Some(ConstraintRentExempt::Enforce);
    assert!(generate(&f).load_rent);
}
