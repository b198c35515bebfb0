//! The declaration of a program's error codes, and the arguments of the
//! error-raising forms.
//!
//! Token streams arrive already split: an attribute as its name and what
//! follows it, a literal as its digits, a list of arguments as expressions
//! and commas.

use crate::model::{clone_opt_text, Text};
use crate::text::{remove_quotes, without_quotes};
use vstd::prelude::*;
use vstd::string::StrSliceExecFns;
use vstd::string::StringExecFns;

verus! {

/// What follows the name of an attribute.
#[derive(Debug, PartialEq, Eq)]
pub enum AttributeArgs {
    /// Nothing.
    Empty,
    /// A delimited group; `first` is the text of its first token, if it has
    /// one.
    Group { first: Option<String> },
    /// A token that is not a group.
    Other,
}

/// `AttributeArgs` as contracts see it.
pub enum AttributeArgsView {
    Empty,
    Group { first: Option<Text> },
    Other,
}

impl DeepView for AttributeArgs {
    type V = AttributeArgsView;

    open spec fn deep_view(&self) -> AttributeArgsView {
        match self {
            AttributeArgs::Empty => AttributeArgsView::Empty,
            AttributeArgs::Group { first } => AttributeArgsView::Group { first: first.deep_view() },
            AttributeArgs::Other => AttributeArgsView::Other,
        }
    }
}

impl Clone for AttributeArgs {
    fn clone(&self) -> (r: Self)
        ensures
            r.deep_view() == self.deep_view(),
    {
        match self {
            AttributeArgs::Empty => AttributeArgs::Empty,
            AttributeArgs::Group { first } => AttributeArgs::Group { first: clone_opt_text(first) },
            AttributeArgs::Other => AttributeArgs::Other,
        }
    }
}

/// An attribute on a variant: the first segment of its path, and what
/// follows the path.
#[derive(Debug, PartialEq, Eq)]
pub struct Attribute {
    pub name: String,
    pub args: AttributeArgs,
}

/// `Attribute` as contracts see it.
pub struct AttributeView {
    pub name: Text,
    pub args: AttributeArgsView,
}

impl DeepView for Attribute {
    type V = AttributeView;

    open spec fn deep_view(&self) -> AttributeView {
        AttributeView { name: self.name@, args: self.args.deep_view() }
    }
}

impl Clone for Attribute {
    fn clone(&self) -> (r: Self)
        ensures
            r.deep_view() == self.deep_view(),
    {
        Attribute { name: self.name.clone(), args: self.args.clone() }
    }
}

/// The explicit discriminant of a variant.
#[derive(Debug, PartialEq, Eq)]
pub enum Discriminant {
    /// An integer literal, as its digits in base ten.
    Int(String),
    /// Any other expression.
    Other,
}

/// `Discriminant` as contracts see it.
pub enum DiscriminantView {
    Int(Text),
    Other,
}

impl DeepView for Discriminant {
    type V = DiscriminantView;

    open spec fn deep_view(&self) -> DiscriminantView {
        match self {
            Discriminant::Int(digits) => DiscriminantView::Int(digits@),
            Discriminant::Other => DiscriminantView::Other,
        }
    }
}

impl Clone for Discriminant {
    fn clone(&self) -> (r: Self)
        ensures
            r.deep_view() == self.deep_view(),
    {
        match self {
            Discriminant::Int(digits) => Discriminant::Int(digits.clone()),
            Discriminant::Other => Discriminant::Other,
        }
    }
}

/// One variant of the error enum.
#[derive(Clone, Debug, PartialEq, Eq)]
pub struct Variant {
    pub ident: String,
    pub attrs: Vec<Attribute>,
    pub discriminant: Option<Discriminant>,
}

/// `Variant` as contracts see it.
pub struct VariantView {
    pub ident: Text,
    pub attrs: Seq<AttributeView>,
    pub discriminant: Option<DiscriminantView>,
}

impl DeepView for Variant {
    type V = VariantView;

    open spec fn deep_view(&self) -> VariantView {
        VariantView {
            ident: self.ident@,
            attrs: self.attrs.deep_view(),
            discriminant: self.discriminant.deep_view(),
        }
    }
}

/// The enum on which error codes are declared.
#[derive(Clone, Debug, PartialEq, Eq)]
pub struct ErrorEnum {
    pub ident: String,
    pub variants: Vec<Variant>,
}

/// `ErrorEnum` as contracts see it.
pub struct ErrorEnumView {
    pub ident: Text,
    pub variants: Seq<VariantView>,
}

impl DeepView for ErrorEnum {
    type V = ErrorEnumView;

    open spec fn deep_view(&self) -> ErrorEnumView {
        ErrorEnumView { ident: self.ident@, variants: self.variants.deep_view() }
    }
}

/// The arguments of the declaration.
#[derive(Clone, Copy, Debug, PartialEq, Eq)]
pub struct ErrorArgs {
    pub offset: u32,
}

/// One error code: its number, its name and its message.
#[derive(Clone, Debug, PartialEq, Eq)]
pub struct ErrorCode {
    pub id: u32,
    pub ident: String,
    pub msg: Option<String>,
}

/// `ErrorCode` as contracts see it.
pub struct ErrorCodeView {
    pub id: u32,
    pub ident: Text,
    pub msg: Option<Text>,
}

impl DeepView for ErrorCode {
    type V = ErrorCodeView;

    open spec fn deep_view(&self) -> ErrorCodeView {
        ErrorCodeView { id: self.id, ident: self.ident@, msg: self.msg.deep_view() }
    }
}

/// The declared error codes of a program.
#[derive(Clone, Debug, PartialEq, Eq)]
pub struct Error {
    pub name: String,
    pub raw_enum: ErrorEnum,
    pub ident: String,
    pub codes: Vec<ErrorCode>,
    pub args: Option<ErrorArgs>,
}

/// `Error` as contracts see it.
pub struct ErrorView {
    pub name: Text,
    pub raw_enum: ErrorEnumView,
    pub ident: Text,
    pub codes: Seq<ErrorCodeView>,
    pub args: Option<ErrorArgs>,
}

impl DeepView for Error {
    type V = ErrorView;

    open spec fn deep_view(&self) -> ErrorView {
        ErrorView {
            name: self.name@,
            raw_enum: self.raw_enum.deep_view(),
            ident: self.ident@,
            codes: self.codes.deep_view(),
            args: self.args,
        }
    }
}

/// The value of a decimal digit.
pub open spec fn digit_value(c: char) -> Option<nat> {
    if '0' <= c && c <= '9' {
        Some((c as nat - '0' as nat) as nat)
    } else {
        None
    }
}

/// The number that a non-empty text of decimal digits writes.
pub open spec fn decimal(s: Text) -> Option<nat>
    decreases s.len(),
{
    if s.len() == 0 {
        None
    } else if s.len() == 1 {
        digit_value(s[0])
    } else {
        match (decimal(s.drop_last()), digit_value(s.last())) {
            (Some(high), Some(digit)) => Some(10 * high + digit),
            _ => None,
        }
    }
}

/// The number that a text of decimal digits writes, where it fits 32 bits.
pub open spec fn decimal_u32(s: Text) -> Option<u32> {
    match decimal(s) {
        Some(value) => if value <= u32::MAX {
            Some(value as u32)
        } else {
            None
        },
        None => None,
    }
}

/// Reads a number written in decimal digits.
pub fn parse_decimal_u32(s: &str) -> (r: Option<u32>)
    ensures
        r == decimal_u32(s@),
{
    let n = s.unicode_len();
    if n == 0 {
        return None;
    }
    let mut value: u64 = 0;
    let mut too_large = false;
    let mut i: usize = 0;
    while i < n
        invariant
            i <= n,
            n == s@.len(),
            value <= u32::MAX,
            i > 0 ==> (decimal(s@.take(i as int)) matches Some(v) && if too_large {
                v > u32::MAX
            } else {
                v == value
            }),
            i == 0 ==> value == 0 && !too_large,
        decreases n - i,
    {
        let c = s.get_char(i);
        let ghost prefix = s@.take(i as int);
        let ghost next = s@.take(i + 1);
        assert(next.drop_last() =~= prefix);
        assert(next.last() == c);
        if c < '0' || c > '9' {
            proof {
                lemma_decimal_needs_digits(s@, i as int);
            }
            return None;
        }
        let digit: u64 = (c as u32 - '0' as u32) as u64;
        assert(digit_value(c) == Some(digit as nat));
        if !too_large {
            let wider: u64 = 10 * value + digit;
            if wider > 0xffff_ffff {
                too_large = true;
            } else {
                value = wider;
            }
        }
        i += 1;
    }
    assert(s@.take(n as int) =~= s@);
    if too_large {
        None
    } else {
        Some(value as u32)
    }
}

/// A text with a character that is no digit writes no number.
pub proof fn lemma_decimal_needs_digits(s: Text, i: int)
    requires
        0 <= i < s.len(),
        digit_value(s[i]) is None,
    ensures
        decimal(s) is None,
    decreases s.len(),
{
    if s.len() > 1 {
        if i < s.len() - 1 {
            lemma_decimal_needs_digits(s.drop_last(), i);
        }
    }
}

/// Whether an attribute is a documentation comment.
pub open spec fn is_doc(a: AttributeView) -> bool {
    a.name == "doc"@
}

/// The documentation comments among the attributes, in order.
pub open spec fn doc_attrs(attrs: Seq<AttributeView>) -> Seq<AttributeView> {
    attrs.filter(|a: AttributeView| is_doc(a))
}

/// The attributes that are no documentation comments, in order.
pub open spec fn other_attrs(attrs: Seq<AttributeView>) -> Seq<AttributeView> {
    attrs.filter(|a: AttributeView| !is_doc(a))
}

/// Whether the attributes of a variant declare at most one message, in the
/// form `msg(..)` with the message as the first token between the brackets.
pub open spec fn message_ok(v: VariantView) -> bool {
    let others = other_attrs(v.attrs);
    others.len() == 0 || (others.len() == 1 && others[0].name == "msg"@
        && others[0].args matches AttributeArgsView::Group { first: Some(_) })
}

/// The message of a variant: the first token of its `msg` attribute without
/// its quotes, or none where the variant has no such attribute.
pub open spec fn message(v: VariantView) -> Option<Text>
    recommends
        message_ok(v),
{
    let others = other_attrs(v.attrs);
    if others.len() == 0 {
        None
    } else {
        Some(without_quotes(others[0].args->first->0))
    }
}

/// Whether the discriminant of a variant, where it has one, is an integer
/// that fits 32 bits.
pub open spec fn discriminant_ok(v: VariantView) -> bool {
    match v.discriminant {
        None => true,
        Some(DiscriminantView::Int(digits)) => decimal_u32(digits) is Some,
        Some(DiscriminantView::Other) => false,
    }
}

/// The number of the variant at position `k`: its discriminant where it has
/// one; else one more than the number of the variant before it, and zero
/// for the first.
pub open spec fn id_at(variants: Seq<VariantView>, k: int) -> int
    decreases k,
{
    if k < 0 || k >= variants.len() {
        0
    } else {
        match variants[k].discriminant {
            Some(DiscriminantView::Int(digits)) => decimal_u32(digits)->0 as int,
            _ => if k == 0 {
                0
            } else {
                id_at(variants, k - 1) + 1
            },
        }
    }
}

/// Whether error codes can be taken from an enum: every variant has at most
/// one message and a usable discriminant, and every number is below the
/// greatest 32-bit number.
pub open spec fn well_formed(e: ErrorEnumView) -> bool {
    forall|k: int|
        0 <= k < e.variants.len() ==> message_ok(#[trigger] e.variants[k]) && discriminant_ok(
            e.variants[k],
        ) && id_at(e.variants, k) < u32::MAX
}

/// A variant with nothing but its documentation comments for attributes.
pub open spec fn stripped_variant(v: VariantView) -> VariantView {
    VariantView { ident: v.ident, attrs: doc_attrs(v.attrs), discriminant: v.discriminant }
}

/// An enum whose variants keep nothing but their documentation comments for
/// attributes.
pub open spec fn stripped(e: ErrorEnumView) -> ErrorEnumView {
    ErrorEnumView {
        ident: e.ident,
        variants: Seq::new(e.variants.len(), |k: int| stripped_variant(e.variants[k])),
    }
}

/// The error codes of an enum, one per variant, in order.
pub open spec fn codes_of(e: ErrorEnumView) -> Seq<ErrorCodeView> {
    Seq::new(
        e.variants.len(),
        |k: int|
            ErrorCodeView {
                id: id_at(e.variants, k) as u32,
                ident: e.variants[k].ident,
                msg: message(e.variants[k]),
            },
    )
}

/// What an enum declares.
pub open spec fn parsed(e: ErrorEnumView, args: Option<ErrorArgs>) -> ErrorView {
    ErrorView { name: e.ident, raw_enum: stripped(e), ident: e.ident, codes: codes_of(e), args }
}

fn attr_is_doc(a: &Attribute) -> (r: bool)
    ensures
        r == is_doc(a.deep_view()),
{
    let doc = String::from_str("doc");
    a.name == doc
}

fn keep_doc(attrs: &Vec<Attribute>) -> (r: Vec<Attribute>)
    ensures
        r.deep_view() == doc_attrs(attrs.deep_view()),
{
    let mut r: Vec<Attribute> = Vec::new();
    let mut i: usize = 0;
    assert(attrs.deep_view().take(0) =~= Seq::empty());
    assert(r.deep_view() =~= doc_attrs(attrs.deep_view().take(0))) by {
        reveal(Seq::filter);
    }
    while i < attrs.len()
        invariant
            i <= attrs.len(),
            r.deep_view() == doc_attrs(attrs.deep_view().take(i as int)),
        decreases attrs.len() - i,
    {
        let ghost before = r.deep_view();
        let ghost next = attrs.deep_view().take(i + 1);
        assert(next.drop_last() =~= attrs.deep_view().take(i as int));
        assert(next.last() == attrs[i as int].deep_view());
        assert(doc_attrs(next) == if is_doc(next.last()) {
            before.push(next.last())
        } else {
            before
        }) by {
            reveal(Seq::filter);
        }
        if attr_is_doc(&attrs[i]) {
            r.push(attrs[i].clone());
            assert(r.deep_view() =~= before.push(next.last()));
        }
        i += 1;
    }
    assert(attrs.deep_view().take(i as int) =~= attrs.deep_view());
    r
}

fn keep_other(attrs: &Vec<Attribute>) -> (r: Vec<Attribute>)
    ensures
        r.deep_view() == other_attrs(attrs.deep_view()),
{
    let mut r: Vec<Attribute> = Vec::new();
    let mut i: usize = 0;
    assert(attrs.deep_view().take(0) =~= Seq::empty());
    assert(r.deep_view() =~= other_attrs(attrs.deep_view().take(0))) by {
        reveal(Seq::filter);
    }
    while i < attrs.len()
        invariant
            i <= attrs.len(),
            r.deep_view() == other_attrs(attrs.deep_view().take(i as int)),
        decreases attrs.len() - i,
    {
        let ghost before = r.deep_view();
        let ghost next = attrs.deep_view().take(i + 1);
        assert(next.drop_last() =~= attrs.deep_view().take(i as int));
        assert(next.last() == attrs[i as int].deep_view());
        assert(other_attrs(next) == if !is_doc(next.last()) {
            before.push(next.last())
        } else {
            before
        }) by {
            reveal(Seq::filter);
        }
        if !attr_is_doc(&attrs[i]) {
            r.push(attrs[i].clone());
            assert(r.deep_view() =~= before.push(next.last()));
        }
        i += 1;
    }
    assert(attrs.deep_view().take(i as int) =~= attrs.deep_view());
    r
}

/// Whether the attributes of a variant declare at most one message in the
/// expected form.
pub fn has_valid_message(variant: &Variant) -> (r: bool)
    ensures
        r == message_ok(variant.deep_view()),
{
    let attrs = keep_other(&variant.attrs);
    if attrs.len() == 0 {
        true
    } else if attrs.len() == 1 {
        let msg = String::from_str("msg");
        let named = attrs[0].name == msg;
        let has_first = match &attrs[0].args {
            AttributeArgs::Group { first: Some(_) } => true,
            _ => false,
        };
        assert(attrs[0].deep_view() == attrs.deep_view()[0]);
        named && has_first
    } else {
        false
    }
}

/// The message that the attributes of a variant declare.
pub fn parse_error_attribute(variant: &Variant) -> (r: Option<String>)
    requires
        message_ok(variant.deep_view()),
    ensures
        r.deep_view() == message(variant.deep_view()),
{
    let attrs = keep_other(&variant.attrs);
    if attrs.len() == 0 {
        None
    } else {
        assert(attrs[0].deep_view() == attrs.deep_view()[0]);
        match &attrs[0].args {
            AttributeArgs::Group { first: Some(msg) } => Some(remove_quotes(msg)),
            _ => vstd::pervasive::unreached(),
        }
    }
}

/// What keeps error codes from being taken from a variant.
#[derive(Clone, Copy, Debug, PartialEq, Eq, Structural)]
pub enum Defect {
    /// The variant has more than one attribute that is no documentation
    /// comment.
    TooManyAttributes,
    /// The attribute of the variant is not named `msg`.
    NotMsg,
    /// Nothing follows the name of the `msg` attribute.
    NoTokenGroup,
    /// What follows the name of the `msg` attribute is no delimited group.
    InvalidSyntax,
    /// The group of the `msg` attribute is empty.
    NoMessage,
    /// The discriminant is no integer literal.
    InvalidDiscriminant,
    /// The discriminant is an integer that does not fit 32 bits.
    NotBase10Number,
    /// The variant has the greatest 32-bit number, after which no number
    /// can follow.
    NumberOverflow,
}

/// What is wrong with the attributes of a variant, if anything is.
pub open spec fn message_defect(v: VariantView) -> Option<Defect> {
    let others = other_attrs(v.attrs);
    if others.len() == 0 {
        None
    } else if others.len() > 1 {
        Some(Defect::TooManyAttributes)
    } else if others[0].name != "msg"@ {
        Some(Defect::NotMsg)
    } else {
        match others[0].args {
            AttributeArgsView::Empty => Some(Defect::NoTokenGroup),
            AttributeArgsView::Other => Some(Defect::InvalidSyntax),
            AttributeArgsView::Group { first: None } => Some(Defect::NoMessage),
            AttributeArgsView::Group { first: Some(_) } => None,
        }
    }
}

/// What is wrong with the discriminant of a variant, if anything is.
pub open spec fn discriminant_defect(v: VariantView) -> Option<Defect> {
    match v.discriminant {
        None => None,
        Some(DiscriminantView::Int(digits)) => if decimal_u32(digits) is Some {
            None
        } else {
            Some(Defect::NotBase10Number)
        },
        Some(DiscriminantView::Other) => Some(Defect::InvalidDiscriminant),
    }
}

/// What is wrong with the variant at position `k`, if anything is: its
/// attributes are looked at first, then its discriminant, then its number.
pub open spec fn variant_defect(variants: Seq<VariantView>, k: int) -> Option<Defect> {
    if message_defect(variants[k]) is Some {
        message_defect(variants[k])
    } else if discriminant_defect(variants[k]) is Some {
        discriminant_defect(variants[k])
    } else if id_at(variants, k) >= u32::MAX {
        Some(Defect::NumberOverflow)
    } else {
        None
    }
}

/// A variant without defect is one from which a code can be taken.
pub proof fn lemma_defect_free(variants: Seq<VariantView>, k: int)
    requires
        0 <= k < variants.len(),
    ensures
        variant_defect(variants, k) is None <==> message_ok(variants[k]) && discriminant_ok(variants[k])
            && id_at(variants, k) < u32::MAX,
{
}

fn find_message_defect(variant: &Variant) -> (r: Option<Defect>)
    ensures
        r == message_defect(variant.deep_view()),
{
    let attrs = keep_other(&variant.attrs);
    if attrs.len() == 0 {
        None
    } else if attrs.len() > 1 {
        Some(Defect::TooManyAttributes)
    } else {
        assert(attrs[0].deep_view() == attrs.deep_view()[0]);
        let msg = String::from_str("msg");
        if attrs[0].name != msg {
            Some(Defect::NotMsg)
        } else {
            match &attrs[0].args {
                AttributeArgs::Empty => Some(Defect::NoTokenGroup),
                AttributeArgs::Other => Some(Defect::InvalidSyntax),
                AttributeArgs::Group { first: None } => Some(Defect::NoMessage),
                AttributeArgs::Group { first: Some(_) } => None,
            }
        }
    }
}

/// Finds the first variant from which no error code can be taken, and what
/// is wrong with it.
pub fn find_defect(error_enum: &ErrorEnum) -> (r: Option<(usize, Defect)>)
    ensures
        match r {
            Some((k, defect)) => {
                &&& k < error_enum.deep_view().variants.len()
                &&& variant_defect(error_enum.deep_view().variants, k as int) == Some(defect)
                &&& forall|j: int|
                    0 <= j < k ==> (#[trigger] variant_defect(error_enum.deep_view().variants, j)) is None
            },
            None => forall|j: int|
                0 <= j < error_enum.deep_view().variants.len() ==> (#[trigger] variant_defect(
                    error_enum.deep_view().variants,
                    j,
                )) is None,
        },
{
    let ghost variants = error_enum.deep_view().variants;
    let mut last_discriminant: u32 = 0;
    let mut i: usize = 0;
    while i < error_enum.variants.len()
        invariant
            i <= error_enum.variants.len(),
            variants == error_enum.deep_view().variants,
            forall|j: int| 0 <= j < i ==> (#[trigger] variant_defect(variants, j)) is None,
            i > 0 ==> last_discriminant == id_at(variants, i - 1) + 1,
            i == 0 ==> last_discriminant == 0,
        decreases error_enum.variants.len() - i,
    {
        let variant = &error_enum.variants[i];
        assert(variant.deep_view() == variants[i as int]);
        match find_message_defect(variant) {
            Some(defect) => {
                return Some((i, defect));
            },
            None => {},
        }
        let id = match &variant.discriminant {
            None => last_discriminant,
            Some(Discriminant::Int(digits)) => match parse_decimal_u32(digits.as_str()) {
                Some(id) => id,
                None => {
                    return Some((i, Defect::NotBase10Number));
                },
            },
            Some(Discriminant::Other) => {
                return Some((i, Defect::InvalidDiscriminant));
            },
        };
        assert(id == id_at(variants, i as int));
        if id == u32::MAX {
            return Some((i, Defect::NumberOverflow));
        }
        last_discriminant = id + 1;
        i += 1;
    }
    None
}

/// Whether error codes can be taken from an enum.
pub fn is_well_formed(error_enum: &ErrorEnum) -> (r: bool)
    ensures
        r == well_formed(error_enum.deep_view()),
{
    let found = find_defect(error_enum);
    proof {
        let variants = error_enum.deep_view().variants;
        assert forall|k: int| 0 <= k < variants.len() implies (variant_defect(variants, k) is None
            <==> message_ok(#[trigger] variants[k]) && discriminant_ok(variants[k]) && id_at(
            variants,
            k,
        ) < u32::MAX) by {
            lemma_defect_free(variants, k);
        }
        match found {
            Some((k, defect)) => {
                lemma_defect_free(variants, k as int);
            },
            None => {},
        }
    }
    found.is_none()
}

/// Takes the error codes from the enum that declares them, and leaves on the
/// variants of the enum nothing but their documentation comments.
pub fn parse(error_enum: &mut ErrorEnum, args: Option<ErrorArgs>) -> (r: Error)
    requires
        well_formed(old(error_enum).deep_view()),
    ensures
        r.deep_view() == parsed(old(error_enum).deep_view(), args),
        final(error_enum).deep_view() == stripped(old(error_enum).deep_view()),
{
    let ghost e = error_enum.deep_view();
    let ident = error_enum.ident.clone();
    let mut last_discriminant: u32 = 0;
    let mut codes: Vec<ErrorCode> = Vec::new();
    let mut kept: Vec<Variant> = Vec::new();
    let mut raw: Vec<Variant> = Vec::new();
    let mut i: usize = 0;
    while i < error_enum.variants.len()
        invariant
            i <= error_enum.variants.len(),
            e == error_enum.deep_view(),
            well_formed(e),
            codes.len() == i,
            kept.len() == i,
            raw.len() == i,
            forall|k: int| 0 <= k < i ==> (#[trigger] codes[k]).deep_view() == codes_of(e)[k],
            forall|k: int| 0 <= k < i ==> (#[trigger] kept[k]).deep_view() == stripped_variant(e.variants[k]),
            forall|k: int| 0 <= k < i ==> (#[trigger] raw[k]).deep_view() == stripped_variant(e.variants[k]),
            i > 0 ==> last_discriminant == id_at(e.variants, i - 1) + 1,
            i == 0 ==> last_discriminant == 0,
        decreases error_enum.variants.len() - i,
    {
        let variant = &error_enum.variants[i];
        assert(variant.deep_view() == e.variants[i as int]);
        let msg = parse_error_attribute(variant);
        let id = match &variant.discriminant {
            None => last_discriminant,
            Some(Discriminant::Int(digits)) => match parse_decimal_u32(digits.as_str()) {
                Some(id) => id,
                None => vstd::pervasive::unreached(),
            },
            Some(Discriminant::Other) => vstd::pervasive::unreached(),
        };
        assert(id == id_at(e.variants, i as int));
        last_discriminant = id + 1;

        // Only documentation comments stay on the variant.
        let discriminant = match &variant.discriminant {
            Some(d) => Some(d.clone()),
            None => None,
        };
        let discriminant_again = match &variant.discriminant {
            Some(d) => Some(d.clone()),
            None => None,
        };
        kept.push(
            Variant { ident: variant.ident.clone(), attrs: keep_doc(&variant.attrs), discriminant },
        );
        raw.push(
            Variant {
                ident: variant.ident.clone(),
                attrs: keep_doc(&variant.attrs),
                discriminant: discriminant_again,
            },
        );
        codes.push(ErrorCode { id, ident: variant.ident.clone(), msg });
        i += 1;
    }
    error_enum.variants = kept;
    assert(error_enum.deep_view().variants =~= stripped(e).variants);
    assert(raw.deep_view() =~= stripped(e).variants);
    assert(codes.deep_view() =~= codes_of(e));
    Error {
        name: error_enum.ident.clone(),
        raw_enum: ErrorEnum { ident: error_enum.ident.clone(), variants: raw },
        ident,
        codes,
        args,
    }
}

/// One item of a list of arguments: an expression, or the comma between
/// two of them.
#[derive(Clone, Debug, PartialEq, Eq)]
pub enum Token {
    Expr(String),
    Comma,
}

/// `Token` as contracts see it.
pub enum TokenView {
    Expr(Text),
    Comma,
}

impl DeepView for Token {
    type V = TokenView;

    open spec fn deep_view(&self) -> TokenView {
        match self {
            Token::Expr(e) => TokenView::Expr(e@),
            Token::Comma => TokenView::Comma,
        }
    }
}

/// Why a list of arguments was refused.
#[derive(Clone, Copy, Debug, PartialEq, Eq, Structural)]
pub enum ParseError {
    /// The list ended where an expression was expected.
    UnexpectedEnd,
    /// A comma stands at `at`, where an expression was expected.
    ExpectedExpression { at: usize },
    /// The arguments are complete, and a further token stands at `at`.
    UnexpectedToken { at: usize },
}

/// The pair of an expected and an actual value that an error may carry.
#[derive(Clone, Debug, PartialEq, Eq)]
pub struct ExpectedActualInput {
    pub pubkeys: bool,
    pub expected: String,
    pub actual: String,
}

/// `ExpectedActualInput` as contracts see it.
pub struct ExpectedActualInputView {
    pub pubkeys: bool,
    pub expected: Text,
    pub actual: Text,
}

impl DeepView for ExpectedActualInput {
    type V = ExpectedActualInputView;

    open spec fn deep_view(&self) -> ExpectedActualInputView {
        ExpectedActualInputView {
            pubkeys: self.pubkeys,
            expected: self.expected@,
            actual: self.actual@,
        }
    }
}

/// The arguments of an error: its code, and optionally an expected and an
/// actual value.
#[derive(Clone, Debug, PartialEq, Eq)]
pub struct ErrorInput {
    pub error_code: String,
    pub expected_actual: Option<ExpectedActualInput>,
}

/// `ErrorInput` as contracts see it.
pub struct ErrorInputView {
    pub error_code: Text,
    pub expected_actual: Option<ExpectedActualInputView>,
}

impl DeepView for ErrorInput {
    type V = ErrorInputView;

    open spec fn deep_view(&self) -> ErrorInputView {
        ErrorInputView {
            error_code: self.error_code@,
            expected_actual: self.expected_actual.deep_view(),
        }
    }
}

/// The arguments of an error that names an account: its code, the name, and
/// optionally an expected and an actual value.
#[derive(Clone, Debug, PartialEq, Eq)]
pub struct ErrorWithAccountNameInput {
    pub error_code: String,
    pub account_name: String,
    pub expected_actual: Option<ExpectedActualInput>,
}

/// `ErrorWithAccountNameInput` as contracts see it.
pub struct ErrorWithAccountNameInputView {
    pub error_code: Text,
    pub account_name: Text,
    pub expected_actual: Option<ExpectedActualInputView>,
}

impl DeepView for ErrorWithAccountNameInput {
    type V = ErrorWithAccountNameInputView;

    open spec fn deep_view(&self) -> ErrorWithAccountNameInputView {
        ErrorWithAccountNameInputView {
            error_code: self.error_code@,
            account_name: self.account_name@,
            expected_actual: self.expected_actual.deep_view(),
        }
    }
}

/// The expression at a position of a list of arguments.
pub open spec fn expr_at(stream: Seq<TokenView>, pos: int) -> Result<Text, ParseError> {
    if pos < 0 || pos >= stream.len() {
        Err(ParseError::UnexpectedEnd)
    } else {
        match stream[pos] {
            TokenView::Expr(e) => Ok(e),
            TokenView::Comma => Err(ParseError::ExpectedExpression { at: pos as usize }),
        }
    }
}

/// Whether a comma stands at a position.
pub open spec fn comma_at(stream: Seq<TokenView>, pos: int) -> bool {
    0 <= pos < stream.len() && stream[pos] is Comma
}

/// The position after the comma at `pos`, or `pos` where none stands there.
pub open spec fn after_comma(stream: Seq<TokenView>, pos: int) -> int {
    if comma_at(stream, pos) {
        pos + 1
    } else {
        pos
    }
}

/// An expected and an actual value from position `pos` on: two expressions,
/// with or without a comma between them. The result holds the position after
/// them.
pub open spec fn expected_actual_at(stream: Seq<TokenView>, pos: int) -> Result<
    (ExpectedActualInputView, int),
    ParseError,
> {
    match expr_at(stream, pos) {
        Err(e) => Err(e),
        Ok(expected) => {
            let next = after_comma(stream, pos + 1);
            match expr_at(stream, next) {
                Err(e) => Err(e),
                Ok(actual) => Ok(
                    (ExpectedActualInputView { pubkeys: false, expected, actual }, next + 1),
                ),
            }
        },
    }
}

/// What may follow the leading arguments from position `pos` on: nothing, or
/// a comma and an expected and an actual value.
pub open spec fn optional_expected_actual_at(stream: Seq<TokenView>, pos: int) -> Result<
    (Option<ExpectedActualInputView>, int),
    ParseError,
> {
    if comma_at(stream, pos) {
        match expected_actual_at(stream, pos + 1) {
            Ok((pair, end)) => Ok((Some(pair), end)),
            Err(e) => Err(e),
        }
    } else {
        Ok((None, pos))
    }
}

/// The arguments of an error from position `pos` on: an expression,
/// optionally followed by a comma and an expected and an actual value.
pub open spec fn error_input_at(stream: Seq<TokenView>, pos: int) -> Result<
    (ErrorInputView, int),
    ParseError,
> {
    match expr_at(stream, pos) {
        Err(e) => Err(e),
        Ok(error_code) => match optional_expected_actual_at(stream, pos + 1) {
            Ok((expected_actual, end)) => Ok((ErrorInputView { error_code, expected_actual }, end)),
            Err(e) => Err(e),
        },
    }
}

/// The arguments of an error that names an account, from position `pos` on:
/// two expressions, with or without a comma between them, optionally
/// followed by a comma and an expected and an actual value.
pub open spec fn error_with_account_name_input_at(stream: Seq<TokenView>, pos: int) -> Result<
    (ErrorWithAccountNameInputView, int),
    ParseError,
> {
    match expr_at(stream, pos) {
        Err(e) => Err(e),
        Ok(error_code) => {
            let next = after_comma(stream, pos + 1);
            match expr_at(stream, next) {
                Err(e) => Err(e),
                Ok(account_name) => match optional_expected_actual_at(stream, next + 1) {
                    Ok((expected_actual, end)) => Ok(
                        (
                            ErrorWithAccountNameInputView { error_code, account_name, expected_actual },
                            end,
                        ),
                    ),
                    Err(e) => Err(e),
                },
            }
        },
    }
}

/// A parse that must use up a list of `len` tokens: a token that is left
/// over is an error.
pub open spec fn complete<T>(parsed: Result<(T, int), ParseError>, len: nat) -> Result<T, ParseError> {
    match parsed {
        Ok((value, end)) => if end == len {
            Ok(value)
        } else {
            Err(ParseError::UnexpectedToken { at: end as usize })
        },
        Err(e) => Err(e),
    }
}

fn parse_expr(stream: &Vec<Token>, pos: usize) -> (r: Result<String, ParseError>)
    ensures
        match r {
            Ok(e) => expr_at(stream.deep_view(), pos as int) == Ok::<Text, ParseError>(e@),
            Err(e) => expr_at(stream.deep_view(), pos as int) == Err::<Text, ParseError>(e),
        },
{
    if pos >= stream.len() {
        Err(ParseError::UnexpectedEnd)
    } else {
        assert(stream[pos as int].deep_view() == stream.deep_view()[pos as int]);
        match &stream[pos] {
            Token::Expr(e) => Ok(e.clone()),
            Token::Comma => Err(ParseError::ExpectedExpression { at: pos }),
        }
    }
}

fn skip_comma(stream: &Vec<Token>, pos: usize) -> (r: usize)
    requires
        pos <= stream.len(),
    ensures
        r == after_comma(stream.deep_view(), pos as int),
        r <= stream.len(),
{
    if pos < stream.len() {
        assert(stream[pos as int].deep_view() == stream.deep_view()[pos as int]);
        match &stream[pos] {
            Token::Comma => pos + 1,
            _ => pos,
        }
    } else {
        pos
    }
}

/// The view of the result of a parse from a position.
pub open spec fn expected_actual_view(r: Result<(ExpectedActualInput, usize), ParseError>) -> Result<
    (ExpectedActualInputView, int),
    ParseError,
> {
    match r {
        Ok((value, end)) => Ok((value.deep_view(), end as int)),
        Err(e) => Err(e),
    }
}

impl ExpectedActualInput {
    /// Reads an expected and an actual value from position `pos` on.
    pub fn parse_at(stream: &Vec<Token>, pos: usize) -> (r: Result<(ExpectedActualInput, usize), ParseError>)
        requires
            pos <= stream.len(),
        ensures
            expected_actual_view(r) == expected_actual_at(stream.deep_view(), pos as int),
            r matches Ok((_, end)) ==> end <= stream.len(),
    {
        let expected = match parse_expr(stream, pos) {
            Ok(e) => e,
            Err(e) => {
                return Err(e);
            },
        };
        let next = skip_comma(stream, pos + 1);
        let actual = match parse_expr(stream, next) {
            Ok(e) => e,
            Err(e) => {
                return Err(e);
            },
        };
        Ok((ExpectedActualInput { pubkeys: false, expected, actual }, next + 1))
    }

    /// Reads a list of arguments that holds an expected and an actual value
    /// and nothing else.
    pub fn parse(stream: &Vec<Token>) -> (r: Result<ExpectedActualInput, ParseError>)
        ensures
            match r {
                Ok(value) => complete(expected_actual_at(stream.deep_view(), 0), stream.deep_view().len())
                    == Ok::<ExpectedActualInputView, ParseError>(value.deep_view()),
                Err(e) => complete(expected_actual_at(stream.deep_view(), 0), stream.deep_view().len())
                    == Err::<ExpectedActualInputView, ParseError>(e),
            },
    {
        match ExpectedActualInput::parse_at(stream, 0) {
            Ok((value, end)) => if end == stream.len() {
                Ok(value)
            } else {
                Err(ParseError::UnexpectedToken { at: end })
            },
            Err(e) => Err(e),
        }
    }
}

fn parse_optional_expected_actual(stream: &Vec<Token>, pos: usize) -> (r: Result<
    (Option<ExpectedActualInput>, usize),
    ParseError,
>)
    requires
        pos <= stream.len(),
    ensures
        match r {
            Ok((value, end)) => optional_expected_actual_at(stream.deep_view(), pos as int) == Ok::<
                (Option<ExpectedActualInputView>, int),
                ParseError,
            >((value.deep_view(), end as int)) && end <= stream.len(),
            Err(e) => optional_expected_actual_at(stream.deep_view(), pos as int) == Err::<
                (Option<ExpectedActualInputView>, int),
                ParseError,
            >(e),
        },
{
    if skip_comma(stream, pos) != pos {
        match ExpectedActualInput::parse_at(stream, pos + 1) {
            Ok((pair, end)) => Ok((Some(pair), end)),
            Err(e) => Err(e),
        }
    } else {
        Ok((None, pos))
    }
}

impl ErrorInput {
    /// Reads the arguments of an error: its code, and optionally, after a
    /// comma, an expected and an actual value.
    pub fn parse(stream: &Vec<Token>) -> (r: Result<ErrorInput, ParseError>)
        ensures
            match r {
                Ok(value) => complete(error_input_at(stream.deep_view(), 0), stream.deep_view().len())
                    == Ok::<ErrorInputView, ParseError>(value.deep_view()),
                Err(e) => complete(error_input_at(stream.deep_view(), 0), stream.deep_view().len())
                    == Err::<ErrorInputView, ParseError>(e),
            },
    {
        let error_code = match parse_expr(stream, 0) {
            Ok(e) => e,
            Err(e) => {
                return Err(e);
            },
        };
        let (expected_actual, end) = match parse_optional_expected_actual(stream, 1) {
            Ok(found) => found,
            Err(e) => {
                return Err(e);
            },
        };
        if end == stream.len() {
            Ok(ErrorInput { error_code, expected_actual })
        } else {
            Err(ParseError::UnexpectedToken { at: end })
        }
    }
}

impl ErrorWithAccountNameInput {
    /// Reads the arguments of an error that names an account: its code and
    /// the name, and optionally, after a comma, an expected and an actual
    /// value.
    pub fn parse(stream: &Vec<Token>) -> (r: Result<ErrorWithAccountNameInput, ParseError>)
        ensures
            match r {
                Ok(value) => complete(
                    error_with_account_name_input_at(stream.deep_view(), 0),
                    stream.deep_view().len(),
                ) == Ok::<ErrorWithAccountNameInputView, ParseError>(value.deep_view()),
                Err(e) => complete(
                    error_with_account_name_input_at(stream.deep_view(), 0),
                    stream.deep_view().len(),
                ) == Err::<ErrorWithAccountNameInputView, ParseError>(e),
            },
    {
        let error_code = match parse_expr(stream, 0) {
            Ok(e) => e,
            Err(e) => {
                return Err(e);
            },
        };
        let next = skip_comma(stream, 1);
        let account_name = match parse_expr(stream, next) {
            Ok(e) => e,
            Err(e) => {
                return Err(e);
            },
        };
        let (expected_actual, end) = match parse_optional_expected_actual(stream, next + 1) {
            Ok(found) => found,
            Err(e) => {
                return Err(e);
            },
        };
        if end == stream.len() {
            Ok(ErrorWithAccountNameInput { error_code, account_name, expected_actual })
        } else {
            Err(ParseError::UnexpectedToken { at: end })
        }
    }
}

} // verus!
