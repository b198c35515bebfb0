//! What a failed check raises.

use crate::model::Text;
use vstd::prelude::*;

verus! {

/// The kinds of failure, one per constraint category.
#[derive(Clone, Copy, Debug, PartialEq, Eq, Structural)]
pub enum ErrorKind {
    /// `mut`: the account is not writable.
    NotWritable,
    /// `has_one`: the stored reference is not the key of the named account.
    ReferencedFieldMismatch,
    /// `signer`: the account did not sign.
    NotSigner,
    /// `constraint`: the expression is false.
    RawExpressionFalse,
    /// `owner`: the owner tag is not the given address.
    OwnerMismatch,
    /// `rent_exempt`: the balance is below the exemption threshold.
    InsufficientRentExemption,
    /// `seeds`: the key is not the derived address.
    DerivedAddressMismatch,
    /// `executable`: the account is not a program.
    NotExecutable,
    /// `state`: the account is not the canonical state account.
    CanonicalStateMismatch,
    /// `associated_token`: the key is not the associated address.
    AssociatedAddressMismatch,
    /// `close`: the account would be closed into itself.
    CloseTargetIsSelf,
    /// `address`: the key is not the given address.
    AddressMismatch,
    /// `zeroed`: the account already carries a type tag.
    AlreadyInitialized,
    /// Two fields, one of them writable, name the same account.
    DuplicateAccount,
    /// A deprecated string-wrapped expression is false.
    DeprecatedLiteralFalse,
}

impl ErrorKind {
    /// The numeric code of a kind, as contracts see it.
    pub open spec fn spec_code(self) -> u32 {
        match self {
            ErrorKind::NotWritable => 2000,
            ErrorKind::ReferencedFieldMismatch => 2001,
            ErrorKind::NotSigner => 2002,
            ErrorKind::RawExpressionFalse => 2003,
            ErrorKind::OwnerMismatch => 2004,
            ErrorKind::InsufficientRentExemption => 2005,
            ErrorKind::DerivedAddressMismatch => 2006,
            ErrorKind::NotExecutable => 2007,
            ErrorKind::CanonicalStateMismatch => 2008,
            ErrorKind::AssociatedAddressMismatch => 2009,
            ErrorKind::CloseTargetIsSelf => 2011,
            ErrorKind::AddressMismatch => 2012,
            ErrorKind::AlreadyInitialized => 2013,
            ErrorKind::DuplicateAccount => 2040,
            ErrorKind::DeprecatedLiteralFalse => 5000,
        }
    }

    /// The stable numeric code that a caller receives for this kind.
    pub fn code(&self) -> (r: u32)
        ensures
            r == self.spec_code(),
    {
        match self {
            ErrorKind::NotWritable => 2000,
            ErrorKind::ReferencedFieldMismatch => 2001,
            ErrorKind::NotSigner => 2002,
            ErrorKind::RawExpressionFalse => 2003,
            ErrorKind::OwnerMismatch => 2004,
            ErrorKind::InsufficientRentExemption => 2005,
            ErrorKind::DerivedAddressMismatch => 2006,
            ErrorKind::NotExecutable => 2007,
            ErrorKind::CanonicalStateMismatch => 2008,
            ErrorKind::AssociatedAddressMismatch => 2009,
            ErrorKind::CloseTargetIsSelf => 2011,
            ErrorKind::AddressMismatch => 2012,
            ErrorKind::AlreadyInitialized => 2013,
            ErrorKind::DuplicateAccount => 2040,
            ErrorKind::DeprecatedLiteralFalse => 5000,
        }
    }

    /// The kind that a numeric code stands for, if any.
    pub fn from_code(code: u32) -> (r: Option<ErrorKind>)
        ensures
            match r {
                Some(kind) => kind.spec_code() == code,
                None => forall|kind: ErrorKind| kind.spec_code() != code,
            },
    {
        if code == 2000 {
            Some(ErrorKind::NotWritable)
        } else if code == 2001 {
            Some(ErrorKind::ReferencedFieldMismatch)
        } else if code == 2002 {
            Some(ErrorKind::NotSigner)
        } else if code == 2003 {
            Some(ErrorKind::RawExpressionFalse)
        } else if code == 2004 {
            Some(ErrorKind::OwnerMismatch)
        } else if code == 2005 {
            Some(ErrorKind::InsufficientRentExemption)
        } else if code == 2006 {
            Some(ErrorKind::DerivedAddressMismatch)
        } else if code == 2007 {
            Some(ErrorKind::NotExecutable)
        } else if code == 2008 {
            Some(ErrorKind::CanonicalStateMismatch)
        } else if code == 2009 {
            Some(ErrorKind::AssociatedAddressMismatch)
        } else if code == 2011 {
            Some(ErrorKind::CloseTargetIsSelf)
        } else if code == 2012 {
            Some(ErrorKind::AddressMismatch)
        } else if code == 2013 {
            Some(ErrorKind::AlreadyInitialized)
        } else if code == 2040 {
            Some(ErrorKind::DuplicateAccount)
        } else if code == 5000 {
            Some(ErrorKind::DeprecatedLiteralFalse)
        } else {
            None
        }
    }
}

/// No two kinds share a code.
pub proof fn lemma_codes_distinct(a: ErrorKind, b: ErrorKind)
    ensures
        a.spec_code() == b.spec_code() <==> a == b,
{
}

/// What a failed check evaluates to: the default error of its kind, or the
/// expression that the author supplied in its place.
#[derive(Debug, PartialEq, Eq)]
pub enum ErrorExpr {
    Default(ErrorKind),
    Custom(String),
}

/// `ErrorExpr` as contracts see it.
pub enum ErrorExprView {
    Default(ErrorKind),
    Custom(Text),
}

impl DeepView for ErrorExpr {
    type V = ErrorExprView;

    open spec fn deep_view(&self) -> ErrorExprView {
        match self {
            ErrorExpr::Default(kind) => ErrorExprView::Default(*kind),
            ErrorExpr::Custom(expr) => ErrorExprView::Custom(expr@),
        }
    }
}

impl Clone for ErrorExpr {
    fn clone(&self) -> (r: Self)
        ensures
            r.deep_view() == self.deep_view(),
    {
        match self {
            ErrorExpr::Default(kind) => ErrorExpr::Default(*kind),
            ErrorExpr::Custom(expr) => ErrorExpr::Custom(expr.clone()),
        }
    }
}

/// The error of a check: the author's expression where one was given, else
/// the default of the kind.
pub open spec fn custom_or_default(custom: Option<Text>, kind: ErrorKind) -> ErrorExprView {
    match custom {
        Some(expr) => ErrorExprView::Custom(expr),
        None => ErrorExprView::Default(kind),
    }
}

/// Chooses the error of a check: a supplied expression fully replaces the
/// default.
pub fn generate_custom_error(custom_error: &Option<String>, error: ErrorKind) -> (r: ErrorExpr)
    ensures
        r.deep_view() == custom_or_default(custom_error.deep_view(), error),
{
    match custom_error {
        Some(expr) => ErrorExpr::Custom(expr.clone()),
        None => ErrorExpr::Default(error),
    }
}

} // verus!
