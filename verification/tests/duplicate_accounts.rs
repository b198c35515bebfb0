use account_constraints::address::Address;
use account_constraints::errors::ErrorKind;
use account_constraints::field::{AccountField, AccountsStruct, CompositeField, Field, Ty};
use account_constraints::group::ConstraintGroup;
use account_constraints::model::{ConstraintDup, ConstraintMut};
use account_constraints::nodup::{
    evaluate_no_dup, generate_constraint_no_dup, generate_constraints_no_dup,
    handle_composite_field, handle_field, DupCheck, DupObservation, NestedAccount,
};

fn addr(tag: u8) -> Address {
    Address::new([tag; 32])
}

fn s(text: &str) -> String {
    text.to_string()
}

fn field(ident: &str, mutable: bool, dup: Option<&str>) -> Field {
    let mut constraints = ConstraintGroup::empty();
    if mutable {
        constraints.mutable = Some(ConstraintMut { error: None });
    }
    constraints.dup = dup.map(|target| ConstraintDup { target: s(target) });
    Field { ident: s(ident), ty: Ty::AccountInfo, constraints }
}

fn composite(ident: &str) -> CompositeField {
    CompositeField { ident: s(ident), symbol: s("Inner"), constraints: ConstraintGroup::empty() }
}

fn pair(first: &str, second: &str) -> DupCheck {
    DupCheck::Fields { first: s(first), second: s(second) }
}

#[test]
fn no_dup_check_names_both_fields() {
    assert_eq!(generate_constraint_no_dup(&s("a"), &s("b")), pair("a", "b"));
}

#[test]
fn two_read_only_fields_are_not_compared() {
    let previous = AccountField::Field(field("a", false, None));
    assert_eq!(handle_field(&previous, &field("b", false, None)), vec![]);
}

#[test]
fn fields_are_compared_where_one_is_writable() {
    let writable = AccountField::Field(field("a", true, None));
    let read_only = AccountField::Field(field("a", false, None));
    assert_eq!(handle_field(&writable, &field("b", false, None)), vec![pair("a", "b")]);
    assert_eq!(handle_field(&read_only, &field("b", true, None)), vec![pair("a", "b")]);
    assert_eq!(handle_field(&writable, &field("b", true, None)), vec![pair("a", "b")]);
}

#[test]
fn a_declared_alias_exempts_the_pair() {
    let a = AccountField::Field(field("a", true, None));
    assert_eq!(handle_field(&a, &field("b", true, Some("a"))), vec![]);
    let a_names_b = AccountField::Field(field("a", true, Some("b")));
    assert_eq!(handle_field(&a_names_b, &field("b", true, None)), vec![]);
}

#[test]
fn an_alias_of_a_third_field_exempts_nothing() {
    let a = AccountField::Field(field("a", true, None));
    assert_eq!(handle_field(&a, &field("b", true, Some("c"))), vec![pair("a", "b")]);
    let a_names_c = AccountField::Field(field("a", true, Some("c")));
    assert_eq!(handle_field(&a_names_c, &field("b", false, Some("c"))), vec![pair("a", "b")]);
}

#[test]
fn a_field_after_a_nested_group_is_compared_with_its_accounts() {
    let group = AccountField::CompositeField(composite("inner"));
    assert_eq!(
        handle_field(&group, &field("b", false, None)),
        vec![DupCheck::Nested { composite: s("inner"), field: s("b"), dup_target: None }]
    );
    assert_eq!(
        handle_field(&group, &field("b", true, Some("inner.a"))),
        vec![DupCheck::Nested { composite: s("inner"), field: s("b"), dup_target: Some(s("inner.a")) }]
    );
}

#[test]
fn a_nested_group_is_not_compared_with_what_stands_before_it() {
    let a = AccountField::Field(field("a", true, None));
    assert_eq!(handle_composite_field(&a, &composite("inner")), vec![]);
    let group = AccountField::CompositeField(composite("first"));
    assert_eq!(handle_composite_field(&group, &composite("inner")), vec![]);
}

#[test]
fn the_pass_compares_every_field_with_all_before_it() {
    let accs = AccountsStruct {
        ident: s("Transfer"),
        fields: vec![
            AccountField::Field(field("a", true, None)),
            AccountField::Field(field("b", false, None)),
            AccountField::CompositeField(composite("inner")),
            AccountField::Field(field("c", false, Some("a"))),
            AccountField::Field(field("d", false, None)),
        ],
    };
    assert_eq!(
        generate_constraints_no_dup(&accs),
        vec![
            pair("a", "b"),
            DupCheck::Nested { composite: s("inner"), field: s("c"), dup_target: Some(s("a")) },
            pair("a", "d"),
            DupCheck::Nested { composite: s("inner"), field: s("d"), dup_target: None },
        ]
    );
}

#[test]
fn the_pass_on_no_field_or_one_field_emits_nothing() {
    let none = AccountsStruct { ident: s("Empty"), fields: vec![] };
    assert_eq!(generate_constraints_no_dup(&none), vec![]);
    let one = AccountsStruct {
        ident: s("One"),
        fields: vec![AccountField::Field(field("a", true, None))],
    };
    assert_eq!(generate_constraints_no_dup(&one), vec![]);
}

#[test]
fn equal_keys_are_a_duplicate() {
    let check = pair("a", "b");
    assert_eq!(
        evaluate_no_dup(&check, &DupObservation::Fields { first: addr(1), second: addr(1) }),
        Err(ErrorKind::DuplicateAccount)
    );
    assert_eq!(
        evaluate_no_dup(&check, &DupObservation::Fields { first: addr(1), second: addr(2) }),
        Ok(())
    );
}

fn nested(name: &str, dup_target: Option<&str>, is_mutable: bool, key: u8) -> NestedAccount {
    NestedAccount {
        path: s("inner"),
        name: s(name),
        dup_target: dup_target.map(s),
        is_mutable,
        key: addr(key),
    }
}

#[test]
fn nested_accounts_are_searched_for_a_duplicate() {
    let check = DupCheck::Nested { composite: s("inner"), field: s("b"), dup_target: None };
    let seen = |is_mutable: bool, accounts: Vec<NestedAccount>| DupObservation::Nested {
        is_mutable,
        key: addr(1),
        accounts,
    };
    assert_eq!(evaluate_no_dup(&check, &seen(true, vec![])), Ok(()));
    assert_eq!(
        evaluate_no_dup(&check, &seen(true, vec![nested("x", None, false, 2), nested("y", None, false, 1)])),
        Err(ErrorKind::DuplicateAccount)
    );
    assert_eq!(
        evaluate_no_dup(&check, &seen(true, vec![nested("x", None, false, 2), nested("y", None, false, 3)])),
        Ok(())
    );
    // Two read-only accounts may be the same.
    assert_eq!(evaluate_no_dup(&check, &seen(false, vec![nested("x", None, false, 1)])), Ok(()));
    assert_eq!(
        evaluate_no_dup(&check, &seen(false, vec![nested("x", None, true, 1)])),
        Err(ErrorKind::DuplicateAccount)
    );
}

#[test]
fn nested_alias_exempts_the_named_account_only() {
    let check =
        DupCheck::Nested { composite: s("inner"), field: s("b"), dup_target: Some(s("inner.x")) };
    let seen = |accounts: Vec<NestedAccount>| DupObservation::Nested {
        is_mutable: true,
        key: addr(1),
        accounts,
    };
    assert_eq!(evaluate_no_dup(&check, &seen(vec![nested("x", None, true, 1)])), Ok(()));
    assert_eq!(
        evaluate_no_dup(&check, &seen(vec![nested("x", None, true, 1), nested("y", None, true, 1)])),
        Err(ErrorKind::DuplicateAccount)
    );
    // The nested account may name the field as its alias as well.
    let plain = DupCheck::Nested { composite: s("inner"), field: s("b"), dup_target: None };
    assert_eq!(evaluate_no_dup(&plain, &seen(vec![nested("x", Some("b"), true, 1)])), Ok(()));
    assert_eq!(
        evaluate_no_dup(&plain, &seen(vec![nested("x", Some("c"), true, 1)])),
        Err(ErrorKind::DuplicateAccount)
    );
}
