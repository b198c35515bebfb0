//! Interfaces: from the declaration of a trait that another program
//! implements to the client through which it is called.
//!
//! A method is called by sending the first eight bytes of a hash of the
//! trait's and the method's names, followed by the arguments.

use crate::model::Text;
use vstd::prelude::*;
use vstd::string::StrSliceExecFns;
use vstd::string::StringExecFns;

verus! {

/// Whether a character is white space: one of the code points that the
/// Unicode character database gives the property `White_Space`.
pub open spec fn is_whitespace(c: char) -> bool {
    let n = c as u32;
    ||| 0x09 <= n <= 0x0d
    ||| n == 0x20
    ||| n == 0x85
    ||| n == 0xa0
    ||| n == 0x1680
    ||| 0x2000 <= n <= 0x200a
    ||| n == 0x2028
    ||| n == 0x2029
    ||| n == 0x202f
    ||| n == 0x205f
    ||| n == 0x3000
}

/// The SHA-256 digest of a sequence of bytes.
pub uninterp spec fn sha256(data: Seq<u8>) -> Seq<u8>;

/// A name in snake case.
pub uninterp spec fn snake_case(name: Text) -> Text;

/// Calls `char::is_whitespace`, which tells whether a character has the
/// Unicode property `White_Space`.
#[verifier::external_body]
fn char_is_whitespace(c: char) -> (r: bool)
    ensures
        r == is_whitespace(c),
{
    c.is_whitespace()
}

/// Calls `solana_program::hash::hash`, which computes the SHA-256 digest of
/// the bytes.
#[verifier::external_body]
fn sha256_digest(data: &[u8]) -> (r: [u8; 32])
    ensures
        r@ == sha256(data@),
{
    solana_program::hash::hash(data).to_bytes()
}

/// Calls `heck::SnakeCase::to_snake_case`.
#[verifier::external_body]
fn to_snake_case(name: &str) -> (r: String)
    ensures
        r@ == snake_case(name@),
{
    heck::SnakeCase::to_snake_case(name)
}

/// A text without its white space.
pub open spec fn without_whitespace(s: Text) -> Text {
    s.filter(|c: char| !is_whitespace(c))
}

/// Whether a text begins with another.
pub open spec fn starts_with(s: Text, prefix: Text) -> bool {
    s.len() >= prefix.len() && s.subrange(0, prefix.len() as int) == prefix
}

/// Whether a type, written with any white space, is the context of a call.
pub open spec fn is_context_type(ty: Text) -> bool {
    starts_with(without_whitespace(ty), "Context<"@)
}

proof fn lemma_without_whitespace_prefix(s: Text, i: int)
    requires
        0 <= i <= s.len(),
    ensures
        without_whitespace(s) == without_whitespace(s.take(i)) + without_whitespace(s.skip(i)),
{
    assert(s =~= s.take(i) + s.skip(i));
    Seq::filter_distributes_over_add(s.take(i), s.skip(i), |c: char| !is_whitespace(c));
}

proof fn lemma_without_whitespace_step(s: Text, i: int)
    requires
        0 <= i < s.len(),
    ensures
        without_whitespace(s.take(i + 1)) == if is_whitespace(s[i]) {
            without_whitespace(s.take(i))
        } else {
            without_whitespace(s.take(i)).push(s[i])
        },
{
    reveal(Seq::filter);
    assert(s.take(i + 1).drop_last() =~= s.take(i));
    assert(s.take(i + 1).last() == s[i]);
}

/// Decides whether a type is the context of a call.
pub fn is_context(ty: &str) -> (r: bool)
    ensures
        r == is_context_type(ty@),
{
    let pattern = "Context<";
    proof {
        reveal_strlit("Context<");
    }
    let n = ty.unicode_len();
    let mut i: usize = 0;
    let mut j: usize = 0;
    assert(without_whitespace(ty@.take(0)) =~= pattern@.take(0)) by {
        reveal(Seq::filter);
        assert(ty@.take(0) =~= Seq::empty());
    }
    while i < n && j < 8
        invariant
            i <= n,
            j <= 8,
            n == ty@.len(),
            pattern@.len() == 8,
            pattern@ == "Context<"@,
            without_whitespace(ty@.take(i as int)) == pattern@.take(j as int),
        decreases n - i,
    {
        let c = ty.get_char(i);
        proof {
            lemma_without_whitespace_step(ty@, i as int);
        }
        if !char_is_whitespace(c) {
            if c != pattern.get_char(j) {
                proof {
                    lemma_without_whitespace_prefix(ty@, i + 1);
                    let kept = without_whitespace(ty@);
                    let head = without_whitespace(ty@.take(i + 1));
                    assert(head == pattern@.take(j as int).push(c));
                    assert(head[j as int] == c);
                    if starts_with(kept, pattern@) {
                        assert(kept.subrange(0, 8)[j as int] == kept[j as int]);
                        assert(kept[j as int] == head[j as int]);
                    }
                }
                return false;
            }
            assert(pattern@.take(j as int).push(c) =~= pattern@.take(j + 1));
            j += 1;
        }
        i += 1;
    }
    proof {
        lemma_without_whitespace_prefix(ty@, i as int);
        let kept = without_whitespace(ty@);
        let head = without_whitespace(ty@.take(i as int));
        if j == 8 {
            assert(pattern@.take(8) =~= pattern@);
            assert(kept.subrange(0, 8) =~= head);
        } else {
            assert(ty@.take(i as int) =~= ty@);
            assert(kept.len() == j);
        }
    }
    j == 8
}

/// The text that is hashed for a method: the name of the trait, a colon,
/// and the name of the method.
pub open spec fn sighash_preimage(namespace: Text, name: Text) -> Text {
    namespace + ":"@ + name
}

/// The first eight bytes of a digest.
pub open spec fn digest_head(digest: Seq<u8>) -> Seq<u8> {
    digest.subrange(0, 8)
}

/// The eight bytes that select a method.
pub open spec fn sighash_of(namespace: Text, name: Text) -> Seq<u8> {
    digest_head(sha256(vstd::utf8::encode_utf8(sighash_preimage(namespace, name))))
}

/// Takes the first eight bytes of a digest.
pub fn sighash_from_digest(digest: &[u8; 32]) -> (r: [u8; 8])
    ensures
        r@ == digest_head(digest@),
{
    let mut sighash = [0u8; 8];
    let mut i: usize = 0;
    while i < 8
        invariant
            i <= 8,
            forall|k: int| 0 <= k < i ==> sighash@[k] == digest@[k],
        decreases 8 - i,
    {
        sighash[i] = digest[i];
        i += 1;
    }
    assert(sighash@ =~= digest_head(digest@));
    sighash
}

/// Computes the eight bytes that select a method of a trait.
pub fn sighash(namespace: &str, name: &str) -> (r: [u8; 8])
    ensures
        r@ == sighash_of(namespace@, name@),
{
    let mut preimage = String::from_str(namespace);
    preimage.append(":");
    preimage.append(name);
    let digest = sha256_digest(preimage.as_str().as_bytes());
    sighash_from_digest(&digest)
}

/// An argument of a method: its pattern and its type.
#[derive(Debug, PartialEq, Eq)]
pub struct PatType {
    pub pat: String,
    pub ty: String,
}

/// `PatType` as contracts see it.
pub struct PatTypeView {
    pub pat: Text,
    pub ty: Text,
}

impl DeepView for PatType {
    type V = PatTypeView;

    open spec fn deep_view(&self) -> PatTypeView {
        PatTypeView { pat: self.pat@, ty: self.ty@ }
    }
}

impl Clone for PatType {
    fn clone(&self) -> (r: Self)
        ensures
            r.deep_view() == self.deep_view(),
    {
        PatType { pat: self.pat.clone(), ty: self.ty.clone() }
    }
}

/// A parameter of a method: the receiver, or an argument.
#[derive(Clone, Debug, PartialEq, Eq)]
pub enum FnArg {
    Receiver,
    Typed(PatType),
}

/// `FnArg` as contracts see it.
pub enum FnArgView {
    Receiver,
    Typed(PatTypeView),
}

impl DeepView for FnArg {
    type V = FnArgView;

    open spec fn deep_view(&self) -> FnArgView {
        match self {
            FnArg::Receiver => FnArgView::Receiver,
            FnArg::Typed(arg) => FnArgView::Typed(arg.deep_view()),
        }
    }
}

/// A method that a trait declares.
#[derive(Clone, Debug, PartialEq, Eq)]
pub struct TraitItemMethod {
    pub ident: String,
    pub inputs: Vec<FnArg>,
}

/// `TraitItemMethod` as contracts see it.
pub struct TraitItemMethodView {
    pub ident: Text,
    pub inputs: Seq<FnArgView>,
}

impl DeepView for TraitItemMethod {
    type V = TraitItemMethodView;

    open spec fn deep_view(&self) -> TraitItemMethodView {
        TraitItemMethodView { ident: self.ident@, inputs: self.inputs.deep_view() }
    }
}

/// An item of a trait: a method, or anything else.
#[derive(Clone, Debug, PartialEq, Eq)]
pub enum TraitItem {
    Method(TraitItemMethod),
    Other,
}

/// `TraitItem` as contracts see it.
pub enum TraitItemView {
    Method(TraitItemMethodView),
    Other,
}

impl DeepView for TraitItem {
    type V = TraitItemView;

    open spec fn deep_view(&self) -> TraitItemView {
        match self {
            TraitItem::Method(m) => TraitItemView::Method(m.deep_view()),
            TraitItem::Other => TraitItemView::Other,
        }
    }
}

/// The declaration of a trait.
#[derive(Clone, Debug, PartialEq, Eq)]
pub struct ItemTrait {
    pub ident: String,
    pub items: Vec<TraitItem>,
}

/// `ItemTrait` as contracts see it.
pub struct ItemTraitView {
    pub ident: Text,
    pub items: Seq<TraitItemView>,
}

impl DeepView for ItemTrait {
    type V = ItemTraitView;

    open spec fn deep_view(&self) -> ItemTraitView {
        ItemTraitView { ident: self.ident@, items: self.items.deep_view() }
    }
}

/// The client of one method: its name, the arguments that are sent, and the
/// eight bytes that select it.
#[derive(Clone, Debug, PartialEq, Eq)]
pub struct ClientMethod {
    pub ident: String,
    pub args: Vec<PatType>,
    pub sighash: [u8; 8],
}

/// `ClientMethod` as contracts see it.
pub struct ClientMethodView {
    pub ident: Text,
    pub args: Seq<PatTypeView>,
    pub sighash: Seq<u8>,
}

impl DeepView for ClientMethod {
    type V = ClientMethodView;

    open spec fn deep_view(&self) -> ClientMethodView {
        ClientMethodView { ident: self.ident@, args: self.args.deep_view(), sighash: self.sighash@ }
    }
}

/// The client of a trait: a module named after the trait, with one function
/// for each method.
#[derive(Clone, Debug, PartialEq, Eq)]
pub struct Interface {
    pub mod_name: String,
    pub methods: Vec<ClientMethod>,
}

/// `Interface` as contracts see it.
pub struct InterfaceView {
    pub mod_name: Text,
    pub methods: Seq<ClientMethodView>,
}

impl DeepView for Interface {
    type V = InterfaceView;

    open spec fn deep_view(&self) -> InterfaceView {
        InterfaceView { mod_name: self.mod_name@, methods: self.methods.deep_view() }
    }
}

/// Whether an argument is sent: the context of the call is not.
pub open spec fn is_sent(arg: FnArgView) -> bool {
    arg matches FnArgView::Typed(a) && !is_context_type(a.ty)
}

/// The arguments of a method that are sent, in order.
pub open spec fn sent_args(inputs: Seq<FnArgView>) -> Seq<PatTypeView> {
    let kept = inputs.filter(|a: FnArgView| is_sent(a));
    Seq::new(kept.len(), |i: int| kept[i]->Typed_0)
}

/// The client of one method of a trait.
pub open spec fn client_method(trait_name: Text, m: TraitItemMethodView) -> ClientMethodView {
    ClientMethodView {
        ident: m.ident,
        args: sent_args(m.inputs),
        sighash: sighash_of(trait_name, m.ident),
    }
}

/// The clients of the methods among the items of a trait, in order.
pub open spec fn client_methods(trait_name: Text, items: Seq<TraitItemView>) -> Seq<ClientMethodView> {
    let methods = items.filter(|i: TraitItemView| i is Method);
    Seq::new(methods.len(), |i: int| client_method(trait_name, methods[i]->Method_0))
}

/// Whether no method of the trait takes a receiver.
pub open spec fn no_receiver(t: ItemTraitView) -> bool {
    forall|i: int, k: int|
        0 <= i < t.items.len() && t.items[i] is Method && 0 <= k < t.items[i]->Method_0.inputs.len()
            ==> (#[trigger] t.items[i]->Method_0.inputs[k]) is Typed
}

/// The client of a trait.
pub open spec fn client_of(t: ItemTraitView) -> InterfaceView {
    InterfaceView { mod_name: snake_case(t.ident), methods: client_methods(t.ident, t.items) }
}

fn client_args(inputs: &Vec<FnArg>) -> (r: Vec<PatType>)
    ensures
        r.deep_view() == sent_args(inputs.deep_view()),
{
    let ghost all = inputs.deep_view();
    let mut args: Vec<PatType> = Vec::new();
    let mut i: usize = 0;
    assert(all.take(0).filter(|a: FnArgView| is_sent(a)) =~= Seq::empty()) by {
        reveal(Seq::filter);
    }
    assert(args.deep_view() =~= sent_args(all.take(0)));
    while i < inputs.len()
        invariant
            i <= inputs.len(),
            all == inputs.deep_view(),
            args.deep_view() == sent_args(all.take(i as int)),
        decreases inputs.len() - i,
    {
        let ghost before = args.deep_view();
        let ghost next = all.take(i + 1);
        assert(next.drop_last() =~= all.take(i as int));
        assert(next.last() == inputs[i as int].deep_view());
        assert(next.filter(|a: FnArgView| is_sent(a)) == if is_sent(next.last()) {
            all.take(i as int).filter(|a: FnArgView| is_sent(a)).push(next.last())
        } else {
            all.take(i as int).filter(|a: FnArgView| is_sent(a))
        }) by {
            reveal(Seq::filter);
        }
        match &inputs[i] {
            FnArg::Typed(arg) => {
                if !is_context(arg.ty.as_str()) {
                    args.push(arg.clone());
                    assert(args.deep_view() =~= before.push(arg.deep_view()));
                    assert(sent_args(next) =~= sent_args(all.take(i as int)).push(arg.deep_view()));
                } else {
                    assert(args.deep_view() =~= sent_args(next));
                }
            },
            FnArg::Receiver => {
                assert(args.deep_view() =~= sent_args(next));
            },
        }
        i += 1;
    }
    assert(all.take(i as int) =~= all);
    args
}

/// Whether no method of the trait takes a receiver.
pub fn has_no_receiver(item_trait: &ItemTrait) -> (r: bool)
    ensures
        r == no_receiver(item_trait.deep_view()),
{
    let ghost t = item_trait.deep_view();
    let mut i: usize = 0;
    while i < item_trait.items.len()
        invariant
            i <= item_trait.items.len(),
            t == item_trait.deep_view(),
            forall|m: int, k: int|
                0 <= m < i && t.items[m] is Method && 0 <= k < t.items[m]->Method_0.inputs.len() ==> (
                #[trigger] t.items[m]->Method_0.inputs[k]) is Typed,
        decreases item_trait.items.len() - i,
    {
        assert(item_trait.items[i as int].deep_view() == t.items[i as int]);
        match &item_trait.items[i] {
            TraitItem::Method(method) => {
                let mut k: usize = 0;
                while k < method.inputs.len()
                    invariant
                        k <= method.inputs.len(),
                        i < item_trait.items.len(),
                        t == item_trait.deep_view(),
                        t.items[i as int] == TraitItemView::Method(method.deep_view()),
                        forall|j: int| 0 <= j < k ==> (#[trigger] method.deep_view().inputs[j]) is Typed,
                    decreases method.inputs.len() - k,
                {
                    assert(method.inputs[k as int].deep_view() == method.deep_view().inputs[k as int]);
                    match &method.inputs[k] {
                        FnArg::Receiver => {
                            assert(!(t.items[i as int]->Method_0.inputs[k as int] is Typed));
                            return false;
                        },
                        FnArg::Typed(_) => {},
                    }
                    k += 1;
                }
            },
            TraitItem::Other => {},
        }
        i += 1;
    }
    true
}

/// Compiles the client of a trait: a module named after the trait in snake
/// case, and for each method the arguments that are sent and the bytes that
/// select it.
pub fn interface(item_trait: &ItemTrait) -> (r: Interface)
    requires
        no_receiver(item_trait.deep_view()),
    ensures
        r.deep_view() == client_of(item_trait.deep_view()),
{
    let ghost t = item_trait.deep_view();
    let mod_name = to_snake_case(item_trait.ident.as_str());
    let mut methods: Vec<ClientMethod> = Vec::new();
    let mut i: usize = 0;
    assert(t.items.take(0).filter(|i: TraitItemView| i is Method) =~= Seq::empty()) by {
        reveal(Seq::filter);
    }
    assert(methods.deep_view() =~= client_methods(t.ident, t.items.take(0)));
    while i < item_trait.items.len()
        invariant
            i <= item_trait.items.len(),
            t == item_trait.deep_view(),
            methods.deep_view() == client_methods(t.ident, t.items.take(i as int)),
        decreases item_trait.items.len() - i,
    {
        let ghost next = t.items.take(i + 1);
        assert(next.drop_last() =~= t.items.take(i as int));
        assert(next.last() == item_trait.items[i as int].deep_view());
        assert(next.filter(|i: TraitItemView| i is Method) == if next.last() is Method {
            t.items.take(i as int).filter(|i: TraitItemView| i is Method).push(next.last())
        } else {
            t.items.take(i as int).filter(|i: TraitItemView| i is Method)
        }) by {
            reveal(Seq::filter);
        }
        match &item_trait.items[i] {
            TraitItem::Method(method) => {
                let args = client_args(&method.inputs);
                let sighash = sighash(item_trait.ident.as_str(), method.ident.as_str());
                let ghost before = methods.deep_view();
                let client = ClientMethod { ident: method.ident.clone(), args, sighash };
                assert(client.deep_view() == client_method(t.ident, method.deep_view()));
                methods.push(client);
                assert(methods.deep_view() =~= before.push(client_method(t.ident, method.deep_view())));
                assert(client_methods(t.ident, next) =~= client_methods(
                    t.ident,
                    t.items.take(i as int),
                ).push(client_method(t.ident, method.deep_view())));
            },
            TraitItem::Other => {
                assert(methods.deep_view() =~= client_methods(t.ident, next));
            },
        }
        i += 1;
    }
    assert(t.items.take(i as int) =~= t.items);
    Interface { mod_name, methods }
}

} // verus!
