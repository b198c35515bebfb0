//! The duplicate-account pass: a separate pass over all fields of an
//! instruction, run after the checks of the single fields.
//!
//! Two fields that name the same account are a danger where one of them is
//! writable. A pair is exempt where the `dup` constraint of one of the two
//! names the other as an intended alias.

use crate::address::Address;
use crate::errors::ErrorKind;
use crate::field::{
    AccountField, AccountFieldView, AccountsStruct, AccountsStructView, CompositeField, Field,
    FieldView,
};
use crate::model::Text;
use vstd::prelude::*;
use vstd::string::StringExecFns;

verus! {

/// One emitted duplicate check. Each raises `DuplicateAccount`.
#[derive(Clone, Debug, PartialEq, Eq)]
pub enum DupCheck {
    /// Fails if the two fields have the same key.
    Fields { first: String, second: String },
    /// Compares `field` with every account of the nested group `composite`;
    /// `dup_target` is the alias that `field` declares, if it does.
    Nested { composite: String, field: String, dup_target: Option<String> },
}

/// `DupCheck` as contracts see it.
pub enum DupCheckView {
    Fields { first: Text, second: Text },
    Nested { composite: Text, field: Text, dup_target: Option<Text> },
}

impl DeepView for DupCheck {
    type V = DupCheckView;

    open spec fn deep_view(&self) -> DupCheckView {
        match self {
            DupCheck::Fields { first, second } => DupCheckView::Fields {
                first: first@,
                second: second@,
            },
            DupCheck::Nested { composite, field, dup_target } => DupCheckView::Nested {
                composite: composite@,
                field: field@,
                dup_target: dup_target.deep_view(),
            },
        }
    }
}

/// Whether a field declares `other` as its intended alias.
pub open spec fn names_alias(f: FieldView, other: Text) -> bool {
    f.constraints.dup matches Some(d) && d.target == other
}

/// Whether the keys of two fields are compared: one of them is writable, and
/// neither declares the other as its alias.
pub open spec fn compared(previous: FieldView, mine: FieldView) -> bool {
    &&& mine.constraints.mutable is Some || previous.constraints.mutable is Some
    &&& !names_alias(mine, previous.ident)
    &&& !names_alias(previous, mine.ident)
}

/// The duplicate checks of a field against one field declared before it.
pub open spec fn field_dup_checks(previous: AccountFieldView, mine: FieldView) -> Seq<DupCheckView> {
    match previous {
        AccountFieldView::Field(pf) => if compared(pf, mine) {
            seq![DupCheckView::Fields { first: pf.ident, second: mine.ident }]
        } else {
            seq![]
        },
        AccountFieldView::CompositeField(cf) => seq![
            DupCheckView::Nested {
                composite: cf.ident,
                field: mine.ident,
                dup_target: match mine.constraints.dup {
                    Some(d) => Some(d.target),
                    None => None,
                },
            },
        ],
    }
}

/// The duplicate checks of a declared parameter against one declared before
/// it. A nested group is not compared with what stands before it.
pub open spec fn pair_dup_checks(previous: AccountFieldView, mine: AccountFieldView) -> Seq<DupCheckView> {
    match mine {
        AccountFieldView::Field(f) => field_dup_checks(previous, f),
        AccountFieldView::CompositeField(_) => seq![],
    }
}

/// The duplicate checks of the parameter at position `i` against the first
/// `j` parameters, in declared order.
pub open spec fn dup_checks_against(fields: Seq<AccountFieldView>, i: int, j: nat) -> Seq<DupCheckView>
    decreases j,
{
    if j == 0 {
        seq![]
    } else {
        dup_checks_against(fields, i, (j - 1) as nat) + pair_dup_checks(fields[j - 1], fields[i])
    }
}

/// The duplicate checks of the first `n` parameters: each against all that
/// are declared before it.
pub open spec fn dup_checks_up_to(fields: Seq<AccountFieldView>, n: nat) -> Seq<DupCheckView>
    decreases n,
{
    if n == 0 {
        seq![]
    } else {
        dup_checks_up_to(fields, (n - 1) as nat) + dup_checks_against(fields, n - 1, (n - 1) as nat)
    }
}

/// The duplicate checks of an instruction.
pub open spec fn no_dup_checks(accs: AccountsStructView) -> Seq<DupCheckView> {
    dup_checks_up_to(accs.fields, accs.fields.len())
}

/// The check that two fields do not name the same account.
pub fn generate_constraint_no_dup(my_field: &String, other_field: &String) -> (r: DupCheck)
    ensures
        r.deep_view() == (DupCheckView::Fields { first: my_field@, second: other_field@ }),
{
    DupCheck::Fields { first: my_field.clone(), second: other_field.clone() }
}

fn declares_alias(f: &Field, other: &String) -> (r: bool)
    ensures
        r == names_alias(f.deep_view(), other@),
{
    match &f.constraints.dup {
        Some(d) => d.target == *other,
        None => false,
    }
}

/// The duplicate checks of a field against one parameter declared before it.
pub fn handle_field(previous_field: &AccountField, my_field: &Field) -> (r: Vec<DupCheck>)
    ensures
        r.deep_view() == field_dup_checks(previous_field.deep_view(), my_field.deep_view()),
{
    let mut checks: Vec<DupCheck> = Vec::new();
    assert(checks.deep_view() =~= Seq::<DupCheckView>::empty());
    match previous_field {
        AccountField::Field(pf) => {
            if !my_field.constraints.is_mutable() && !pf.constraints.is_mutable() {
                return checks;
            }
            if declares_alias(my_field, &pf.ident) || declares_alias(pf, &my_field.ident) {
                return checks;
            }
            checks.push(generate_constraint_no_dup(&pf.ident, &my_field.ident));
            assert(checks.deep_view() =~= field_dup_checks(
                previous_field.deep_view(),
                my_field.deep_view(),
            ));
        },
        AccountField::CompositeField(cf) => {
            let dup_target = match &my_field.constraints.dup {
                Some(d) => Some(d.target.clone()),
                None => None,
            };
            checks.push(
                DupCheck::Nested {
                    composite: cf.ident.clone(),
                    field: my_field.ident.clone(),
                    dup_target,
                },
            );
            assert(checks.deep_view() =~= field_dup_checks(
                previous_field.deep_view(),
                my_field.deep_view(),
            ));
        },
    };
    checks
}

/// The duplicate checks of a nested group against one parameter declared
/// before it: none.
pub fn handle_composite_field(_previous_field: &AccountField, _field: &CompositeField) -> (r: Vec<
    DupCheck,
>)
    ensures
        r.deep_view() == Seq::<DupCheckView>::empty(),
{
    let checks: Vec<DupCheck> = Vec::new();
    assert(checks.deep_view() =~= Seq::<DupCheckView>::empty());
    checks
}

/// Compiles the duplicate-account pass of an instruction: every parameter is
/// compared with every parameter declared before it.
pub fn generate_constraints_no_dup(accs: &AccountsStruct) -> (r: Vec<DupCheck>)
    ensures
        r.deep_view() == no_dup_checks(accs.deep_view()),
{
    let ghost fields = accs.deep_view().fields;
    let mut all: Vec<DupCheck> = Vec::new();
    assert(all.deep_view() =~= dup_checks_up_to(fields, 0));
    let mut i: usize = 0;
    while i < accs.fields.len()
        invariant
            i <= accs.fields.len(),
            fields == accs.deep_view().fields,
            all.deep_view() == dup_checks_up_to(fields, i as nat),
        decreases accs.fields.len() - i,
    {
        let ghost done = all.deep_view();
        let mut j: usize = 0;
        assert(all.deep_view() =~= done + dup_checks_against(fields, i as int, 0));
        while j < i
            invariant
                j <= i,
                i < accs.fields.len(),
                fields == accs.deep_view().fields,
                all.deep_view() == done + dup_checks_against(fields, i as int, j as nat),
            decreases i - j,
        {
            let ghost before = all.deep_view();
            assert(accs.fields[j as int].deep_view() == fields[j as int]);
            assert(accs.fields[i as int].deep_view() == fields[i as int]);
            let mut found = match &accs.fields[i] {
                AccountField::CompositeField(cf) => handle_composite_field(&accs.fields[j], cf),
                AccountField::Field(f) => handle_field(&accs.fields[j], f),
            };
            let ghost added = found.deep_view();
            assert(added == pair_dup_checks(fields[j as int], fields[i as int]));
            all.append(&mut found);
            assert(all.deep_view() =~= before + added);
            assert(all.deep_view() =~= done + dup_checks_against(fields, i as int, (j + 1) as nat));
            j += 1;
        }
        i += 1;
    }
    all
}

/// An account of a nested group as the host sees it when the pass runs: the
/// path of the group that holds it, its name, its alias if it declares one,
/// whether it is writable, and its key.
#[derive(Clone, Debug, PartialEq, Eq)]
pub struct NestedAccount {
    pub path: String,
    pub name: String,
    pub dup_target: Option<String>,
    pub is_mutable: bool,
    pub key: Address,
}

/// `NestedAccount` as contracts see it.
pub struct NestedAccountView {
    pub path: Text,
    pub name: Text,
    pub dup_target: Option<Text>,
    pub is_mutable: bool,
    pub key: Address,
}

impl DeepView for NestedAccount {
    type V = NestedAccountView;

    open spec fn deep_view(&self) -> NestedAccountView {
        NestedAccountView {
            path: self.path@,
            name: self.name@,
            dup_target: self.dup_target.deep_view(),
            is_mutable: self.is_mutable,
            key: self.key,
        }
    }
}

/// The name by which an account of a nested group is declared an alias: the
/// path of its group, a dot, and its own name.
pub open spec fn nested_name(n: NestedAccountView) -> Text {
    n.path + "."@ + n.name
}

/// Whether a field and an account of a nested group are duplicates: one of
/// them is writable, neither declares the other as its alias, and they have
/// the same key.
pub open spec fn nested_duplicate(
    field: Text,
    is_mutable: bool,
    key: Address,
    dup_target: Option<Text>,
    n: NestedAccountView,
) -> bool {
    &&& is_mutable || n.is_mutable
    &&& dup_target != Some(nested_name(n))
    &&& n.dup_target != Some(field)
    &&& key == n.key
}

/// What the host saw for one duplicate check.
#[derive(Clone, Debug, PartialEq, Eq)]
pub enum DupObservation {
    /// The keys of the two fields.
    Fields { first: Address, second: Address },
    /// Whether the field is writable, its key, and the accounts of the
    /// nested group.
    Nested { is_mutable: bool, key: Address, accounts: Vec<NestedAccount> },
}

/// `DupObservation` as contracts see it.
pub enum DupObservationView {
    Fields { first: Address, second: Address },
    Nested { is_mutable: bool, key: Address, accounts: Seq<NestedAccountView> },
}

impl DeepView for DupObservation {
    type V = DupObservationView;

    open spec fn deep_view(&self) -> DupObservationView {
        match self {
            DupObservation::Fields { first, second } => DupObservationView::Fields {
                first: *first,
                second: *second,
            },
            DupObservation::Nested { is_mutable, key, accounts } => DupObservationView::Nested {
                is_mutable: *is_mutable,
                key: *key,
                accounts: accounts.deep_view(),
            },
        }
    }
}

/// Whether an observation is of what a duplicate check reads.
pub open spec fn dup_describes(seen: DupObservationView, check: DupCheckView) -> bool {
    match check {
        DupCheckView::Fields { .. } => seen is Fields,
        DupCheckView::Nested { .. } => seen is Nested,
    }
}

impl DupObservation {
    /// Whether this observation is of what the duplicate check reads.
    pub fn describes(&self, check: &DupCheck) -> (r: bool)
        ensures
            r == dup_describes(self.deep_view(), check.deep_view()),
    {
        match (check, self) {
            (DupCheck::Fields { .. }, DupObservation::Fields { .. }) => true,
            (DupCheck::Nested { .. }, DupObservation::Nested { .. }) => true,
            _ => false,
        }
    }
}

/// Whether a duplicate check finds a duplicate.
pub open spec fn finds_duplicate(check: DupCheckView, seen: DupObservationView) -> bool
    recommends
        dup_describes(seen, check),
{
    match (check, seen) {
        (DupCheckView::Fields { .. }, DupObservationView::Fields { first, second }) => first == second,
        (
            DupCheckView::Nested { field, dup_target, .. },
            DupObservationView::Nested { is_mutable, key, accounts },
        ) => exists|k: int|
            0 <= k < accounts.len() && nested_duplicate(
                field,
                is_mutable,
                key,
                dup_target,
                #[trigger] accounts[k],
            ),
        _ => false,
    }
}

fn is_nested_duplicate(
    field: &String,
    is_mutable: bool,
    key: &Address,
    dup_target: &Option<String>,
    n: &NestedAccount,
) -> (r: bool)
    ensures
        r == nested_duplicate(field@, is_mutable, *key, dup_target.deep_view(), n.deep_view()),
{
    if !is_mutable && !n.is_mutable {
        return false;
    }
    let mut path = n.path.clone();
    path.append(".");
    path.append(n.name.as_str());
    let named_by_field = match dup_target {
        Some(target) => *target == path,
        None => false,
    };
    let names_field = match &n.dup_target {
        Some(target) => *target == *field,
        None => false,
    };
    !named_by_field && !names_field && key.same(&n.key)
}

fn any_nested_duplicate(
    field: &String,
    is_mutable: bool,
    key: &Address,
    dup_target: &Option<String>,
    accounts: &Vec<NestedAccount>,
) -> (r: bool)
    ensures
        r == exists|k: int|
            0 <= k < accounts.deep_view().len() && nested_duplicate(
                field@,
                is_mutable,
                *key,
                dup_target.deep_view(),
                #[trigger] accounts.deep_view()[k],
            ),
{
    let mut k: usize = 0;
    while k < accounts.len()
        invariant
            k <= accounts.len(),
            forall|m: int|
                0 <= m < k ==> !nested_duplicate(
                    field@,
                    is_mutable,
                    *key,
                    dup_target.deep_view(),
                    #[trigger] accounts.deep_view()[m],
                ),
        decreases accounts.len() - k,
    {
        assert(accounts[k as int].deep_view() == accounts.deep_view()[k as int]);
        if is_nested_duplicate(field, is_mutable, key, dup_target, &accounts[k]) {
            return true;
        }
        k += 1;
    }
    false
}

/// Runs one duplicate check against what the host saw.
pub fn evaluate_no_dup(check: &DupCheck, seen: &DupObservation) -> (r: Result<(), ErrorKind>)
    requires
        dup_describes(seen.deep_view(), check.deep_view()),
    ensures
        r == if finds_duplicate(check.deep_view(), seen.deep_view()) {
            Err::<(), ErrorKind>(ErrorKind::DuplicateAccount)
        } else {
            Ok(())
        },
{
    let found = match (check, seen) {
        (DupCheck::Fields { .. }, DupObservation::Fields { first, second }) => {
            let r = first.same(second);
            assert(r == finds_duplicate(check.deep_view(), seen.deep_view()));
            r
        },
        (
            DupCheck::Nested { field, dup_target, .. },
            DupObservation::Nested { is_mutable, key, accounts },
        ) => {
            let r = any_nested_duplicate(field, *is_mutable, key, dup_target, accounts);
            assert(r == finds_duplicate(check.deep_view(), seen.deep_view()));
            r
        },
        _ => vstd::pervasive::unreached(),
    };
    if found {
        Err(ErrorKind::DuplicateAccount)
    } else {
        Ok(())
    }
}

} // verus!
