use account_constraints::address::{system_program, Address};
use account_constraints::checks::Check;
use account_constraints::creator::{
    create_account, initialize, needs_initialization, program_space, Call, Creation,
    Initialization, Invocation, Setup, ACCOUNT_HEADER_LEN, MINT_LEN, TOKEN_ACCOUNT_LEN,
};
use account_constraints::emit::{generate, is_valid_field};
use account_constraints::field::{Field, Ty};
use account_constraints::group::ConstraintGroup;
use account_constraints::model::{ConstraintInitGroup, ConstraintRentExempt, ConstraintSeedsGroup, InitKind};
use account_constraints::run::{run, Observation};
use solana_program::rent::Rent;

fn addr(tag: u8) -> Address {
    Address::new([tag; 32])
}

fn s(text: &str) -> String {
    text.to_string()
}

fn min_balance(space: usize) -> u64 {
    Rent::default().minimum_balance(space)
}

fn init_field(if_needed: bool, seeds: Option<ConstraintSeedsGroup>) -> Field {
    let mut constraints = ConstraintGroup::empty();
    constraints.init = Some(ConstraintInitGroup {
        if_needed,
        seeds,
        payer: s("payer"),
        space: Some(s("16")),
        kind: InitKind::Program { owner: None },
    });
    Field { ident: s("target"), ty: Ty::Account(s("Data")), constraints }
}

fn program_init(if_needed: bool, owner: Address, lamports: u64) -> Initialization {
    Initialization {
        if_needed,
        target: addr(1),
        target_owner: owner,
        target_lamports: lamports,
        payer: addr(2),
        min_balance: min_balance(16),
        signer_seeds: None,
        setup: Setup::Program { space: 16, owner: addr(9) },
    }
}

fn unsigned(call: Call) -> Invocation {
    Invocation { call, signer_seeds: None }
}

#[test]
fn minimum_balance_of_sixteen_bytes() {
    assert_eq!(min_balance(16), 1_002_240);
}

#[test]
fn init_on_an_empty_account_issues_one_create_call() {
    let field = init_field(false, None);
    assert!(is_valid_field(&field));
    let compiled = generate(&field);
    assert_eq!(compiled.checks.len(), 1);
    assert!(matches!(compiled.checks[0], Check::Init(_)));

    let seen = vec![Observation::Init(program_init(false, system_program(), 0))];
    assert!(seen[0].describes(&compiled.checks[0]));
    let outcome = run(&compiled.checks, &seen);
    assert_eq!(outcome.failure, None);
    assert_eq!(
        outcome.issued,
        vec![unsigned(Call::CreateAccount {
            from: addr(2),
            to: addr(1),
            lamports: 1_002_240,
            space: 16,
            owner: addr(9),
        })]
    );
}

#[test]
fn init_on_a_prefunded_account_transfers_allocates_and_assigns() {
    let field = init_field(false, None);
    let compiled = generate(&field);
    let seen = vec![Observation::Init(program_init(false, system_program(), 1))];
    assert!(seen[0].describes(&compiled.checks[0]));
    let outcome = run(&compiled.checks, &seen);
    assert_eq!(outcome.failure, None);
    assert_eq!(
        outcome.issued,
        vec![
            unsigned(Call::Transfer { from: addr(2), to: addr(1), lamports: 1_002_239 }),
            unsigned(Call::Allocate { account: addr(1), space: 16 }),
            unsigned(Call::Assign { account: addr(1), owner: addr(9) }),
        ]
    );
}

#[test]
fn init_with_enforced_rent_leaves_no_check_failing() {
    let mut field = init_field(false, None);
    field.constraints.rent_exempt = Some(ConstraintRentExempt::Enforce);
    let compiled = generate(&field);
    assert!(compiled.load_rent);
    assert_eq!(compiled.checks.len(), 2);
    // The host reads the balance again after it has created the account.
    let seen = vec![
        Observation::Init(program_init(false, system_program(), 0)),
        Observation::RentExempt { lamports: 1_002_240, min_balance: min_balance(16) },
    ];
    let outcome = run(&compiled.checks, &seen);
    assert_eq!(outcome.failure, None);
    assert_eq!(outcome.issued.len(), 1);
}

#[test]
fn creator_signs_with_the_seeds_of_a_derived_address() {
    let seeds = vec![b"vault".to_vec(), vec![254]];
    let creation = Creation {
        payer: addr(2),
        target: addr(1),
        current_lamports: 0,
        min_balance: 500,
        space: 40,
        owner: addr(9),
        signer_seeds: Some(seeds.clone()),
    };
    assert_eq!(
        create_account(&creation),
        vec![Invocation {
            call: Call::CreateAccount {
                from: addr(2),
                to: addr(1),
                lamports: 500,
                space: 40,
                owner: addr(9),
            },
            signer_seeds: Some(seeds.clone()),
        }]
    );
    let funded = Creation { current_lamports: 100, ..creation };
    assert_eq!(
        create_account(&funded),
        vec![
            unsigned(Call::Transfer { from: addr(2), to: addr(1), lamports: 400 }),
            Invocation {
                call: Call::Allocate { account: addr(1), space: 40 },
                signer_seeds: Some(seeds.clone()),
            },
            Invocation {
                call: Call::Assign { account: addr(1), owner: addr(9) },
                signer_seeds: Some(seeds),
            },
        ]
    );
}

#[test]
fn creator_transfers_nothing_to_an_account_that_is_funded_enough() {
    let creation = |lamports: u64| Creation {
        payer: addr(2),
        target: addr(1),
        current_lamports: lamports,
        min_balance: 500,
        space: 8,
        owner: addr(9),
        signer_seeds: None,
    };
    let expected = vec![
        unsigned(Call::Allocate { account: addr(1), space: 8 }),
        unsigned(Call::Assign { account: addr(1), owner: addr(9) }),
    ];
    assert_eq!(create_account(&creation(500)), expected);
    assert_eq!(create_account(&creation(501)), expected);
    assert_eq!(create_account(&creation(u64::MAX)), expected);
    assert_eq!(
        create_account(&creation(499))[0],
        unsigned(Call::Transfer { from: addr(2), to: addr(1), lamports: 1 })
    );
}

#[test]
fn creator_with_a_minimum_balance_of_zero() {
    let creation = |lamports: u64| Creation {
        payer: addr(2),
        target: addr(1),
        current_lamports: lamports,
        min_balance: 0,
        space: 0,
        owner: addr(9),
        signer_seeds: None,
    };
    assert_eq!(
        create_account(&creation(0)),
        vec![unsigned(Call::CreateAccount {
            from: addr(2),
            to: addr(1),
            lamports: 0,
            space: 0,
            owner: addr(9),
        })]
    );
    assert_eq!(create_account(&creation(1)).len(), 2);
}

#[test]
fn init_if_needed_runs_once() {
    let first = program_init(true, system_program(), 0);
    let calls = initialize(&first);
    assert_eq!(calls.len(), 1);
    // The account as the first run left it: created, funded, assigned.
    let second = program_init(true, addr(9), 1_002_240);
    assert_eq!(initialize(&second), vec![]);
    // Plain `init` runs whatever the owner is.
    assert_eq!(initialize(&program_init(false, addr(9), 1_002_240)).len(), 2);
}

#[test]
fn init_if_needed_runs_while_the_system_program_owns_the_account() {
    assert_eq!(initialize(&program_init(true, system_program(), 5)).len(), 3);
    assert_eq!(initialize(&program_init(true, addr(7), 5)).len(), 0);
}

#[test]
fn token_account_is_created_then_initialized() {
    let token_program = addr(6);
    let i = Initialization {
        if_needed: false,
        target: addr(1),
        target_owner: system_program(),
        target_lamports: 0,
        payer: addr(2),
        min_balance: min_balance(TOKEN_ACCOUNT_LEN as usize),
        signer_seeds: None,
        setup: Setup::Token { token_program, mint: addr(3), authority: addr(4) },
    };
    assert_eq!(i.setup.space(), 165);
    assert_eq!(i.setup.owner(), token_program);
    assert_eq!(
        initialize(&i),
        vec![
            unsigned(Call::CreateAccount {
                from: addr(2),
                to: addr(1),
                lamports: min_balance(165),
                space: 165,
                owner: token_program,
            }),
            unsigned(Call::InitializeAccount {
                token_program,
                account: addr(1),
                mint: addr(3),
                authority: addr(4),
            }),
        ]
    );
}

#[test]
fn mint_is_created_then_initialized() {
    let token_program = addr(6);
    let seeds = vec![b"mint".to_vec(), vec![255]];
    let i = Initialization {
        if_needed: true,
        target: addr(1),
        target_owner: system_program(),
        target_lamports: 10,
        payer: addr(2),
        min_balance: 1000,
        signer_seeds: Some(seeds.clone()),
        setup: Setup::Mint {
            token_program,
            decimals: 6,
            authority: addr(4),
            freeze_authority: Some(addr(5)),
        },
    };
    assert_eq!(i.setup.space(), MINT_LEN);
    assert_eq!(MINT_LEN, 82);
    assert_eq!(
        initialize(&i),
        vec![
            unsigned(Call::Transfer { from: addr(2), to: addr(1), lamports: 990 }),
            Invocation {
                call: Call::Allocate { account: addr(1), space: 82 },
                signer_seeds: Some(seeds.clone()),
            },
            Invocation {
                call: Call::Assign { account: addr(1), owner: token_program },
                signer_seeds: Some(seeds),
            },
            unsigned(Call::InitializeMint {
                token_program,
                mint: addr(1),
                decimals: 6,
                authority: addr(4),
                freeze_authority: Some(addr(5)),
            }),
        ]
    );
}

#[test]
fn associated_token_account_is_one_call() {
    let i = Initialization {
        if_needed: true,
        target: addr(1),
        target_owner: system_program(),
        target_lamports: 77,
        payer: addr(2),
        min_balance: 1000,
        signer_seeds: None,
        setup: Setup::AssociatedToken { token_program: addr(6), mint: addr(3), authority: addr(4) },
    };
    assert_eq!(
        initialize(&i),
        vec![unsigned(Call::CreateAssociatedToken {
            payer: addr(2),
            associated_token: addr(1),
            authority: addr(4),
            mint: addr(3),
            token_program: addr(6),
        })]
    );
    let again = Initialization { target_owner: addr(6), ..i };
    assert_eq!(initialize(&again), vec![]);
}

#[test]
fn system_program_is_thirty_two_zero_bytes() {
    assert_eq!(system_program(), Address::new([0; 32]));
    assert_eq!(system_program().bytes, solana_program::system_program::ID.to_bytes());
    assert!(system_program().same(&addr(0)));
    assert!(!system_program().same(&addr(1)));
}

#[test]
fn init_with_skipped_rent_still_funds_to_the_minimum_balance() {
    let mut field = init_field(false, None);
    field.constraints.rent_exempt = Some(ConstraintRentExempt::Skip);
    let compiled = generate(&field);
    // The creator needs the rent parameters although no rent check follows.
    assert!(compiled.load_rent);
    assert_eq!(compiled.checks.len(), 2);
    assert!(matches!(compiled.checks[0], Check::Init(_)));
    assert_eq!(compiled.checks[1], Check::Nothing);
    let seen = vec![Observation::Init(program_init(false, system_program(), 0)), Observation::Nothing];
    let outcome = run(&compiled.checks, &seen);
    assert_eq!(outcome.failure, None);
    assert_eq!(
        outcome.issued,
        vec![unsigned(Call::CreateAccount {
            from: addr(2),
            to: addr(1),
            lamports: min_balance(16),
            space: 16,
            owner: addr(9),
        })]
    );
}

#[test]
fn program_space_is_the_declared_size_or_header_and_payload() {
    assert_eq!(ACCOUNT_HEADER_LEN, 8);
    assert_eq!(program_space(Some(16), 0), 16);
    assert_eq!(program_space(Some(16), 100), 16);
    assert_eq!(program_space(Some(0), 5), 0);
    assert_eq!(program_space(None, 0), 8);
    assert_eq!(program_space(None, 32), 40);
    assert_eq!(program_space(None, u64::MAX - 8), u64::MAX);
    assert_eq!(program_space(Some(u64::MAX), u64::MAX), u64::MAX);
}

#[test]
fn initializer_runs_always_or_while_the_system_program_owns() {
    assert!(needs_initialization(false, &system_program()));
    assert!(needs_initialization(false, &addr(9)));
    assert!(needs_initialization(true, &system_program()));
    assert!(!needs_initialization(true, &addr(9)));
}
