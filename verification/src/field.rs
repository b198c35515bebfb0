//! Declared account fields: an identifier, a capability type and constraints.

use crate::group::{ConstraintGroup, ConstraintGroupView};
use crate::model::Text;
use vstd::prelude::*;

verus! {

/// The declared capability type of a field. The typed variants carry the path
/// of the account type they wrap.
#[derive(Clone, Debug, PartialEq, Eq)]
pub enum Ty {
    /// A plain account handle.
    AccountInfo,
    /// A plain account handle that the author takes responsibility for.
    UncheckedAccount,
    /// The state account of the running program (legacy).
    ProgramState(String),
    /// The state account of another program (legacy).
    CpiState(String),
    /// A typed account owned by the running program (legacy).
    ProgramAccount(String),
    /// A zero-copy account (legacy).
    Loader(String),
    /// A zero-copy account.
    AccountLoader(String),
    /// A typed account owned by another program (legacy).
    CpiAccount(String),
    /// A system variable.
    Sysvar(String),
    /// A typed, owned account.
    Account(String),
    /// A program.
    Program(String),
    /// An account that must have signed.
    Signer,
    /// An account owned by the system program.
    SystemAccount,
    /// The data account of an upgradeable program.
    ProgramData,
}

/// `Ty` as contracts see it.
pub enum TyView {
    AccountInfo,
    UncheckedAccount,
    ProgramState(Text),
    CpiState(Text),
    ProgramAccount(Text),
    Loader(Text),
    AccountLoader(Text),
    CpiAccount(Text),
    Sysvar(Text),
    Account(Text),
    Program(Text),
    Signer,
    SystemAccount,
    ProgramData,
}

impl DeepView for Ty {
    type V = TyView;

    open spec fn deep_view(&self) -> TyView {
        match self {
            Ty::AccountInfo => TyView::AccountInfo,
            Ty::UncheckedAccount => TyView::UncheckedAccount,
            Ty::ProgramState(p) => TyView::ProgramState(p@),
            Ty::CpiState(p) => TyView::CpiState(p@),
            Ty::ProgramAccount(p) => TyView::ProgramAccount(p@),
            Ty::Loader(p) => TyView::Loader(p@),
            Ty::AccountLoader(p) => TyView::AccountLoader(p@),
            Ty::CpiAccount(p) => TyView::CpiAccount(p@),
            Ty::Sysvar(p) => TyView::Sysvar(p@),
            Ty::Account(p) => TyView::Account(p@),
            Ty::Program(p) => TyView::Program(p@),
            Ty::Signer => TyView::Signer,
            Ty::SystemAccount => TyView::SystemAccount,
            Ty::ProgramData => TyView::ProgramData,
        }
    }
}

impl TyView {
    /// Whether the content of the account is reached through a load
    /// operation rather than read directly.
    pub open spec fn is_zero_copy(self) -> bool {
        self is Loader || self is AccountLoader
    }

    /// Whether the type is a plain handle or wraps one, so that the signer
    /// flag of the underlying handle can be read.
    pub open spec fn can_sign(self) -> bool {
        self is AccountInfo || self is ProgramAccount || self is Account || self is Loader
            || self is AccountLoader || self is CpiAccount
    }

    /// The path of the wrapped account type, for the types that wrap one.
    pub open spec fn account_ty(self) -> Option<Text> {
        match self {
            TyView::ProgramState(p) => Some(p),
            TyView::CpiState(p) => Some(p),
            TyView::ProgramAccount(p) => Some(p),
            TyView::Loader(p) => Some(p),
            TyView::AccountLoader(p) => Some(p),
            TyView::CpiAccount(p) => Some(p),
            TyView::Account(p) => Some(p),
            _ => None,
        }
    }
}

impl Ty {
    /// Whether the content of the account is reached through a load
    /// operation.
    pub fn is_zero_copy(&self) -> (r: bool)
        ensures
            r == self.deep_view().is_zero_copy(),
    {
        match self {
            Ty::Loader(_) => true,
            Ty::AccountLoader(_) => true,
            _ => false,
        }
    }

    /// Whether the signer flag of the underlying handle can be read.
    pub fn can_sign(&self) -> (r: bool)
        ensures
            r == self.deep_view().can_sign(),
    {
        match self {
            Ty::AccountInfo => true,
            Ty::ProgramAccount(_) => true,
            Ty::Account(_) => true,
            Ty::Loader(_) => true,
            Ty::AccountLoader(_) => true,
            Ty::CpiAccount(_) => true,
            _ => false,
        }
    }

    /// The path of the wrapped account type, for the types that wrap one.
    pub fn account_ty(&self) -> (r: Option<String>)
        ensures
            r.deep_view() == self.deep_view().account_ty(),
    {
        match self {
            Ty::ProgramState(p) => Some(p.clone()),
            Ty::CpiState(p) => Some(p.clone()),
            Ty::ProgramAccount(p) => Some(p.clone()),
            Ty::Loader(p) => Some(p.clone()),
            Ty::AccountLoader(p) => Some(p.clone()),
            Ty::CpiAccount(p) => Some(p.clone()),
            Ty::Account(p) => Some(p.clone()),
            _ => None,
        }
    }
}

/// One declared account parameter.
#[derive(Clone, Debug, PartialEq, Eq)]
pub struct Field {
    pub ident: String,
    pub ty: Ty,
    pub constraints: ConstraintGroup,
}

/// `Field` as contracts see it.
pub struct FieldView {
    pub ident: Text,
    pub ty: TyView,
    pub constraints: ConstraintGroupView,
}

impl DeepView for Field {
    type V = FieldView;

    open spec fn deep_view(&self) -> FieldView {
        FieldView {
            ident: self.ident@,
            ty: self.ty.deep_view(),
            constraints: self.constraints.deep_view(),
        }
    }
}

/// A declared parameter that is itself a group of accounts. Only boolean
/// expressions may be declared on it.
#[derive(Clone, Debug, PartialEq, Eq)]
pub struct CompositeField {
    pub ident: String,
    pub symbol: String,
    pub constraints: ConstraintGroup,
}

/// `CompositeField` as contracts see it.
pub struct CompositeFieldView {
    pub ident: Text,
    pub symbol: Text,
    pub constraints: ConstraintGroupView,
}

impl DeepView for CompositeField {
    type V = CompositeFieldView;

    open spec fn deep_view(&self) -> CompositeFieldView {
        CompositeFieldView {
            ident: self.ident@,
            symbol: self.symbol@,
            constraints: self.constraints.deep_view(),
        }
    }
}

/// A declared parameter: one account or a nested group.
#[derive(Clone, Debug, PartialEq, Eq)]
pub enum AccountField {
    Field(Field),
    CompositeField(CompositeField),
}

/// `AccountField` as contracts see it.
pub enum AccountFieldView {
    Field(FieldView),
    CompositeField(CompositeFieldView),
}

impl DeepView for AccountField {
    type V = AccountFieldView;

    open spec fn deep_view(&self) -> AccountFieldView {
        match self {
            AccountField::Field(f) => AccountFieldView::Field(f.deep_view()),
            AccountField::CompositeField(f) => AccountFieldView::CompositeField(f.deep_view()),
        }
    }
}

/// The declared parameters of one instruction, in declared order.
#[derive(Clone, Debug, PartialEq, Eq)]
pub struct AccountsStruct {
    pub ident: String,
    pub fields: Vec<AccountField>,
}

/// `AccountsStruct` as contracts see it.
pub struct AccountsStructView {
    pub ident: Text,
    pub fields: Seq<AccountFieldView>,
}

impl DeepView for AccountsStruct {
    type V = AccountsStructView;

    open spec fn deep_view(&self) -> AccountsStructView {
        AccountsStructView { ident: self.ident@, fields: self.fields.deep_view() }
    }
}

} // verus!
