//! The constraints of one field: as declared (a record of optional slots) and
//! as compiled (a sequence of tagged constraints).

use crate::model::{
    ConstraintAddress, ConstraintAddressView, ConstraintAssociatedToken,
    ConstraintAssociatedTokenView, ConstraintClose, ConstraintCloseView, ConstraintDup,
    ConstraintDupView, ConstraintExecutable, ConstraintHasOne, ConstraintHasOneView,
    ConstraintInitGroup, ConstraintInitGroupView, ConstraintLiteral, ConstraintLiteralView,
    ConstraintMut, ConstraintMutView, ConstraintOwner, ConstraintOwnerView, ConstraintRaw,
    ConstraintRawView, ConstraintRentExempt, ConstraintSeedsGroup, ConstraintSeedsGroupView,
    ConstraintSigner, ConstraintSignerView, ConstraintState, ConstraintStateView,
    ConstraintZeroed,
};
use vstd::prelude::*;

verus! {

/// What an author declared on one field: one slot per constraint kind. A slot
/// is filled exactly when the constraint was declared; `has_one`, `literal`
/// and `raw` may be declared several times and keep their declared order.
#[derive(Clone, Debug, PartialEq, Eq)]
pub struct ConstraintGroup {
    pub init: Option<ConstraintInitGroup>,
    pub zeroed: Option<ConstraintZeroed>,
    pub mutable: Option<ConstraintMut>,
    pub dup: Option<ConstraintDup>,
    pub signer: Option<ConstraintSigner>,
    pub has_one: Vec<ConstraintHasOne>,
    pub literal: Vec<ConstraintLiteral>,
    pub raw: Vec<ConstraintRaw>,
    pub owner: Option<ConstraintOwner>,
    pub rent_exempt: Option<ConstraintRentExempt>,
    pub seeds: Option<ConstraintSeedsGroup>,
    pub executable: Option<ConstraintExecutable>,
    pub state: Option<ConstraintState>,
    pub close: Option<ConstraintClose>,
    pub address: Option<ConstraintAddress>,
    pub associated_token: Option<ConstraintAssociatedToken>,
}

/// `ConstraintGroup` as contracts see it.
pub struct ConstraintGroupView {
    pub init: Option<ConstraintInitGroupView>,
    pub zeroed: Option<ConstraintZeroed>,
    pub mutable: Option<ConstraintMutView>,
    pub dup: Option<ConstraintDupView>,
    pub signer: Option<ConstraintSignerView>,
    pub has_one: Seq<ConstraintHasOneView>,
    pub literal: Seq<ConstraintLiteralView>,
    pub raw: Seq<ConstraintRawView>,
    pub owner: Option<ConstraintOwnerView>,
    pub rent_exempt: Option<ConstraintRentExempt>,
    pub seeds: Option<ConstraintSeedsGroupView>,
    pub executable: Option<ConstraintExecutable>,
    pub state: Option<ConstraintStateView>,
    pub close: Option<ConstraintCloseView>,
    pub address: Option<ConstraintAddressView>,
    pub associated_token: Option<ConstraintAssociatedTokenView>,
}

impl DeepView for ConstraintGroup {
    type V = ConstraintGroupView;

    open spec fn deep_view(&self) -> ConstraintGroupView {
        ConstraintGroupView {
            init: self.init.deep_view(),
            zeroed: self.zeroed.deep_view(),
            mutable: self.mutable.deep_view(),
            dup: self.dup.deep_view(),
            signer: self.signer.deep_view(),
            has_one: self.has_one.deep_view(),
            literal: self.literal.deep_view(),
            raw: self.raw.deep_view(),
            owner: self.owner.deep_view(),
            rent_exempt: self.rent_exempt.deep_view(),
            seeds: self.seeds.deep_view(),
            executable: self.executable.deep_view(),
            state: self.state.deep_view(),
            close: self.close.deep_view(),
            address: self.address.deep_view(),
            associated_token: self.associated_token.deep_view(),
        }
    }
}

impl ConstraintGroup {
    /// A group in which nothing is declared.
    pub fn empty() -> (r: ConstraintGroup)
        ensures
            r.deep_view() == ConstraintGroupView::empty(),
    {
        let r = ConstraintGroup {
            init: None,
            zeroed: None,
            mutable: None,
            dup: None,
            signer: None,
            has_one: Vec::new(),
            literal: Vec::new(),
            raw: Vec::new(),
            owner: None,
            rent_exempt: None,
            seeds: None,
            executable: None,
            state: None,
            close: None,
            address: None,
            associated_token: None,
        };
        assert(r.has_one.deep_view() =~= Seq::empty());
        assert(r.literal.deep_view() =~= Seq::empty());
        assert(r.raw.deep_view() =~= Seq::empty());
        r
    }

    /// Whether the field is declared writable.
    pub fn is_mutable(&self) -> (r: bool)
        ensures
            r == self.deep_view().mutable.is_some(),
    {
        self.mutable.is_some()
    }
}

impl ConstraintGroupView {
    pub open spec fn empty() -> ConstraintGroupView {
        ConstraintGroupView {
            init: None,
            zeroed: None,
            mutable: None,
            dup: None,
            signer: None,
            has_one: Seq::empty(),
            literal: Seq::empty(),
            raw: Seq::empty(),
            owner: None,
            rent_exempt: None,
            seeds: None,
            executable: None,
            state: None,
            close: None,
            address: None,
            associated_token: None,
        }
    }
}

/// One declared constraint, tagged with its kind.
#[derive(Clone, Debug, PartialEq, Eq)]
pub enum Constraint {
    Init(ConstraintInitGroup),
    Zeroed(ConstraintZeroed),
    Mut(ConstraintMut),
    Dup(ConstraintDup),
    Signer(ConstraintSigner),
    HasOne(ConstraintHasOne),
    Literal(ConstraintLiteral),
    Raw(ConstraintRaw),
    Owner(ConstraintOwner),
    RentExempt(ConstraintRentExempt),
    Seeds(ConstraintSeedsGroup),
    AssociatedToken(ConstraintAssociatedToken),
    Executable(ConstraintExecutable),
    State(ConstraintState),
    Close(ConstraintClose),
    Address(ConstraintAddress),
}

/// `Constraint` as contracts see it.
pub enum ConstraintView {
    Init(ConstraintInitGroupView),
    Zeroed(ConstraintZeroed),
    Mut(ConstraintMutView),
    Dup(ConstraintDupView),
    Signer(ConstraintSignerView),
    HasOne(ConstraintHasOneView),
    Literal(ConstraintLiteralView),
    Raw(ConstraintRawView),
    Owner(ConstraintOwnerView),
    RentExempt(ConstraintRentExempt),
    Seeds(ConstraintSeedsGroupView),
    AssociatedToken(ConstraintAssociatedTokenView),
    Executable(ConstraintExecutable),
    State(ConstraintStateView),
    Close(ConstraintCloseView),
    Address(ConstraintAddressView),
}

impl DeepView for Constraint {
    type V = ConstraintView;

    open spec fn deep_view(&self) -> ConstraintView {
        match self {
            Constraint::Init(c) => ConstraintView::Init(c.deep_view()),
            Constraint::Zeroed(c) => ConstraintView::Zeroed(*c),
            Constraint::Mut(c) => ConstraintView::Mut(c.deep_view()),
            Constraint::Dup(c) => ConstraintView::Dup(c.deep_view()),
            Constraint::Signer(c) => ConstraintView::Signer(c.deep_view()),
            Constraint::HasOne(c) => ConstraintView::HasOne(c.deep_view()),
            Constraint::Literal(c) => ConstraintView::Literal(c.deep_view()),
            Constraint::Raw(c) => ConstraintView::Raw(c.deep_view()),
            Constraint::Owner(c) => ConstraintView::Owner(c.deep_view()),
            Constraint::RentExempt(c) => ConstraintView::RentExempt(*c),
            Constraint::Seeds(c) => ConstraintView::Seeds(c.deep_view()),
            Constraint::AssociatedToken(c) => ConstraintView::AssociatedToken(c.deep_view()),
            Constraint::Executable(c) => ConstraintView::Executable(*c),
            Constraint::State(c) => ConstraintView::State(c.deep_view()),
            Constraint::Close(c) => ConstraintView::Close(c.deep_view()),
            Constraint::Address(c) => ConstraintView::Address(c.deep_view()),
        }
    }
}

} // verus!
