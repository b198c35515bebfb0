//! The linearizer: from the declared slots of a field to the sequence in which
//! its constraints are enforced.
//!
//! The order is fixed by one table, `entries`: constraints that establish that
//! the account exists and is the right one come first, cheap authority checks
//! next, checks that read the account's content after them, and the late
//! guards last. Declared order decides only among constraints of one kind.

use crate::group::{Constraint, ConstraintGroup, ConstraintGroupView, ConstraintView};
use crate::model::{
    ConstraintHasOne, ConstraintHasOneView, ConstraintLiteral, ConstraintLiteralView,
    ConstraintRaw, ConstraintRawView,
};
use vstd::prelude::*;

verus! {

/// The number of priority classes.
pub open spec fn rank_count() -> nat {
    16
}

/// The priority class of a constraint: its position in the fixed order.
pub open spec fn rank(c: ConstraintView) -> nat {
    match c {
        ConstraintView::Zeroed(_) => 0,
        ConstraintView::Init(_) => 1,
        ConstraintView::Seeds(_) => 2,
        ConstraintView::AssociatedToken(_) => 3,
        ConstraintView::Mut(_) => 4,
        ConstraintView::Signer(_) => 5,
        ConstraintView::HasOne(_) => 6,
        ConstraintView::Dup(_) => 7,
        ConstraintView::Literal(_) => 8,
        ConstraintView::Raw(_) => 9,
        ConstraintView::Owner(_) => 10,
        ConstraintView::RentExempt(_) => 11,
        ConstraintView::Executable(_) => 12,
        ConstraintView::State(_) => 13,
        ConstraintView::Close(_) => 14,
        ConstraintView::Address(_) => 15,
    }
}

/// The priority class of a constraint.
pub fn priority(c: &Constraint) -> (r: u8)
    ensures
        r == rank(c.deep_view()),
{
    match c {
        Constraint::Zeroed(_) => 0,
        Constraint::Init(_) => 1,
        Constraint::Seeds(_) => 2,
        Constraint::AssociatedToken(_) => 3,
        Constraint::Mut(_) => 4,
        Constraint::Signer(_) => 5,
        Constraint::HasOne(_) => 6,
        Constraint::Dup(_) => 7,
        Constraint::Literal(_) => 8,
        Constraint::Raw(_) => 9,
        Constraint::Owner(_) => 10,
        Constraint::RentExempt(_) => 11,
        Constraint::Executable(_) => 12,
        Constraint::State(_) => 13,
        Constraint::Close(_) => 14,
        Constraint::Address(_) => 15,
    }
}

/// The `has_one` constraints of a group, tagged, in declared order.
pub open spec fn has_one_entries(list: Seq<ConstraintHasOneView>) -> Seq<ConstraintView> {
    Seq::new(list.len(), |i: int| ConstraintView::HasOne(list[i]))
}

/// The `literal` constraints of a group, tagged, in declared order.
pub open spec fn literal_entries(list: Seq<ConstraintLiteralView>) -> Seq<ConstraintView> {
    Seq::new(list.len(), |i: int| ConstraintView::Literal(list[i]))
}

/// The `raw` constraints of a group, tagged, in declared order.
pub open spec fn raw_entries(list: Seq<ConstraintRawView>) -> Seq<ConstraintView> {
    Seq::new(list.len(), |i: int| ConstraintView::Raw(list[i]))
}

/// The table of the fixed order: the constraints that a group contributes to
/// priority class `r`.
pub open spec fn entries(g: ConstraintGroupView, r: nat) -> Seq<ConstraintView> {
    if r == 0 {
        match g.zeroed {
            Some(c) => seq![ConstraintView::Zeroed(c)],
            None => seq![],
        }
    } else if r == 1 {
        match g.init {
            Some(c) => seq![ConstraintView::Init(c)],
            None => seq![],
        }
    } else if r == 2 {
        match g.seeds {
            Some(c) => seq![ConstraintView::Seeds(c)],
            None => seq![],
        }
    } else if r == 3 {
        match g.associated_token {
            Some(c) => seq![ConstraintView::AssociatedToken(c)],
            None => seq![],
        }
    } else if r == 4 {
        match g.mutable {
            Some(c) => seq![ConstraintView::Mut(c)],
            None => seq![],
        }
    } else if r == 5 {
        match g.signer {
            Some(c) => seq![ConstraintView::Signer(c)],
            None => seq![],
        }
    } else if r == 6 {
        has_one_entries(g.has_one)
    } else if r == 7 {
        match g.dup {
            Some(c) => seq![ConstraintView::Dup(c)],
            None => seq![],
        }
    } else if r == 8 {
        literal_entries(g.literal)
    } else if r == 9 {
        raw_entries(g.raw)
    } else if r == 10 {
        match g.owner {
            Some(c) => seq![ConstraintView::Owner(c)],
            None => seq![],
        }
    } else if r == 11 {
        match g.rent_exempt {
            Some(c) => seq![ConstraintView::RentExempt(c)],
            None => seq![],
        }
    } else if r == 12 {
        match g.executable {
            Some(c) => seq![ConstraintView::Executable(c)],
            None => seq![],
        }
    } else if r == 13 {
        match g.state {
            Some(c) => seq![ConstraintView::State(c)],
            None => seq![],
        }
    } else if r == 14 {
        match g.close {
            Some(c) => seq![ConstraintView::Close(c)],
            None => seq![],
        }
    } else if r == 15 {
        match g.address {
            Some(c) => seq![ConstraintView::Address(c)],
            None => seq![],
        }
    } else {
        seq![]
    }
}

/// The constraints of the first `n` priority classes, in order.
pub open spec fn ordered_up_to(g: ConstraintGroupView, n: nat) -> Seq<ConstraintView>
    decreases n,
{
    if n == 0 {
        seq![]
    } else {
        ordered_up_to(g, (n - 1) as nat) + entries(g, (n - 1) as nat)
    }
}

/// The sequence in which the constraints of a group are enforced.
pub open spec fn linear_order(g: ConstraintGroupView) -> Seq<ConstraintView> {
    ordered_up_to(g, rank_count())
}

fn push_constraint(v: &mut Vec<Constraint>, c: Constraint)
    ensures
        final(v).deep_view() == old(v).deep_view().push(c.deep_view()),
{
    v.push(c);
    assert(v.deep_view() =~= old(v).deep_view().push(c.deep_view()));
}

fn append_has_one(v: &mut Vec<Constraint>, list: &Vec<ConstraintHasOne>)
    ensures
        final(v).deep_view() == old(v).deep_view() + has_one_entries(list.deep_view()),
{
    let ghost base = v.deep_view();
    let mut i: usize = 0;
    while i < list.len()
        invariant
            i <= list.len(),
            v.deep_view() == base + has_one_entries(list.deep_view()).take(i as int),
        decreases list.len() - i,
    {
        push_constraint(v, Constraint::HasOne(list[i].clone()));
        assert(v.deep_view() =~= base + has_one_entries(list.deep_view()).take(i + 1));
        i += 1;
    }
    assert(has_one_entries(list.deep_view()).take(i as int) =~= has_one_entries(list.deep_view()));
}

fn append_literal(v: &mut Vec<Constraint>, list: &Vec<ConstraintLiteral>)
    ensures
        final(v).deep_view() == old(v).deep_view() + literal_entries(list.deep_view()),
{
    let ghost base = v.deep_view();
    let mut i: usize = 0;
    while i < list.len()
        invariant
            i <= list.len(),
            v.deep_view() == base + literal_entries(list.deep_view()).take(i as int),
        decreases list.len() - i,
    {
        push_constraint(v, Constraint::Literal(list[i].clone()));
        assert(v.deep_view() =~= base + literal_entries(list.deep_view()).take(i + 1));
        i += 1;
    }
    assert(literal_entries(list.deep_view()).take(i as int) =~= literal_entries(list.deep_view()));
}

fn append_raw(v: &mut Vec<Constraint>, list: &Vec<ConstraintRaw>)
    ensures
        final(v).deep_view() == old(v).deep_view() + raw_entries(list.deep_view()),
{
    let ghost base = v.deep_view();
    let mut i: usize = 0;
    while i < list.len()
        invariant
            i <= list.len(),
            v.deep_view() == base + raw_entries(list.deep_view()).take(i as int),
        decreases list.len() - i,
    {
        push_constraint(v, Constraint::Raw(list[i].clone()));
        assert(v.deep_view() =~= base + raw_entries(list.deep_view()).take(i + 1));
        i += 1;
    }
    assert(raw_entries(list.deep_view()).take(i as int) =~= raw_entries(list.deep_view()));
}

/// The view of an optional constraint as a sequence of at most one entry.
pub open spec fn present(c: Option<ConstraintView>) -> Seq<ConstraintView> {
    match c {
        Some(c) => seq![c],
        None => seq![],
    }
}

fn push_slot(v: &mut Vec<Constraint>, c: Option<Constraint>)
    ensures
        final(v).deep_view() == old(v).deep_view() + present(c.deep_view()),
{
    match c {
        Some(c) => {
            push_constraint(v, c);
            assert(v.deep_view() =~= old(v).deep_view() + seq![c.deep_view()]);
        },
        None => {
            assert(v.deep_view() =~= old(v).deep_view() + Seq::<ConstraintView>::empty());
        },
    }
}

proof fn lemma_next_class(g: ConstraintGroupView, n: nat, before: Seq<ConstraintView>, after: Seq<ConstraintView>)
    requires
        before == ordered_up_to(g, n),
        after == before + entries(g, n),
    ensures
        after == ordered_up_to(g, n + 1),
{
}

/// Orders the constraints of a group so that every constraint runs after the
/// constraints it depends on.
pub fn linearize(c_group: &ConstraintGroup) -> (constraints: Vec<Constraint>)
    ensures
        constraints.deep_view() == linear_order(c_group.deep_view()),
{
    let ghost g = c_group.deep_view();
    let mut constraints: Vec<Constraint> = Vec::new();
    assert(constraints.deep_view() =~= ordered_up_to(g, 0));

    let ghost before = constraints.deep_view();
    let slot = match &c_group.zeroed {
        Some(c) => Some(Constraint::Zeroed(*c)),
        None => None,
    };
    push_slot(&mut constraints, slot);
    proof {
        lemma_next_class(g, 0, before, constraints.deep_view());
        before = constraints.deep_view();
    }
    let slot = match &c_group.init {
        Some(c) => Some(Constraint::Init(c.clone())),
        None => None,
    };
    push_slot(&mut constraints, slot);
    proof {
        lemma_next_class(g, 1, before, constraints.deep_view());
        before = constraints.deep_view();
    }
    let slot = match &c_group.seeds {
        Some(c) => Some(Constraint::Seeds(c.clone())),
        None => None,
    };
    push_slot(&mut constraints, slot);
    proof {
        lemma_next_class(g, 2, before, constraints.deep_view());
        before = constraints.deep_view();
    }
    let slot = match &c_group.associated_token {
        Some(c) => Some(Constraint::AssociatedToken(c.clone())),
        None => None,
    };
    push_slot(&mut constraints, slot);
    proof {
        lemma_next_class(g, 3, before, constraints.deep_view());
        before = constraints.deep_view();
    }
    let slot = match &c_group.mutable {
        Some(c) => Some(Constraint::Mut(c.clone())),
        None => None,
    };
    push_slot(&mut constraints, slot);
    proof {
        lemma_next_class(g, 4, before, constraints.deep_view());
        before = constraints.deep_view();
    }
    let slot = match &c_group.signer {
        Some(c) => Some(Constraint::Signer(c.clone())),
        None => None,
    };
    push_slot(&mut constraints, slot);
    proof {
        lemma_next_class(g, 5, before, constraints.deep_view());
        before = constraints.deep_view();
    }
    append_has_one(&mut constraints, &c_group.has_one);
    proof {
        lemma_next_class(g, 6, before, constraints.deep_view());
        before = constraints.deep_view();
    }
    let slot = match &c_group.dup {
        Some(c) => Some(Constraint::Dup(c.clone())),
        None => None,
    };
    push_slot(&mut constraints, slot);
    proof {
        lemma_next_class(g, 7, before, constraints.deep_view());
        before = constraints.deep_view();
    }
    append_literal(&mut constraints, &c_group.literal);
    proof {
        lemma_next_class(g, 8, before, constraints.deep_view());
        before = constraints.deep_view();
    }
    append_raw(&mut constraints, &c_group.raw);
    proof {
        lemma_next_class(g, 9, before, constraints.deep_view());
        before = constraints.deep_view();
    }
    let slot = match &c_group.owner {
        Some(c) => Some(Constraint::Owner(c.clone())),
        None => None,
    };
    push_slot(&mut constraints, slot);
    proof {
        lemma_next_class(g, 10, before, constraints.deep_view());
        before = constraints.deep_view();
    }
    let slot = match &c_group.rent_exempt {
        Some(c) => Some(Constraint::RentExempt(*c)),
        None => None,
    };
    push_slot(&mut constraints, slot);
    proof {
        lemma_next_class(g, 11, before, constraints.deep_view());
        before = constraints.deep_view();
    }
    let slot = match &c_group.executable {
        Some(c) => Some(Constraint::Executable(*c)),
        None => None,
    };
    push_slot(&mut constraints, slot);
    proof {
        lemma_next_class(g, 12, before, constraints.deep_view());
        before = constraints.deep_view();
    }
    let slot = match &c_group.state {
        Some(c) => Some(Constraint::State(c.clone())),
        None => None,
    };
    push_slot(&mut constraints, slot);
    proof {
        lemma_next_class(g, 13, before, constraints.deep_view());
        before = constraints.deep_view();
    }
    let slot = match &c_group.close {
        Some(c) => Some(Constraint::Close(c.clone())),
        None => None,
    };
    push_slot(&mut constraints, slot);
    proof {
        lemma_next_class(g, 14, before, constraints.deep_view());
        before = constraints.deep_view();
    }
    let slot = match &c_group.address {
        Some(c) => Some(Constraint::Address(c.clone())),
        None => None,
    };
    push_slot(&mut constraints, slot);
    proof {
        lemma_next_class(g, 15, before, constraints.deep_view());
    }
    constraints
}

/// Every constraint that a group contributes to a priority class has that
/// class as its rank.
pub proof fn lemma_entries_rank(g: ConstraintGroupView, r: nat)
    ensures
        forall|i: int| 0 <= i < entries(g, r).len() ==> rank(#[trigger] entries(g, r)[i]) == r,
{
}

/// Ranks never decrease along the first `n` priority classes, and stay
/// below `n`.
pub proof fn lemma_ordered_up_to_sorted(g: ConstraintGroupView, n: nat)
    ensures
        forall|i: int| 0 <= i < ordered_up_to(g, n).len() ==> rank(#[trigger] ordered_up_to(g, n)[i]) < n,
        forall|i: int, j: int|
            0 <= i <= j < ordered_up_to(g, n).len() ==> rank(#[trigger] ordered_up_to(g, n)[i]) <= rank(
                #[trigger] ordered_up_to(g, n)[j],
            ),
    decreases n,
{
    if n > 0 {
        let m = (n - 1) as nat;
        lemma_ordered_up_to_sorted(g, m);
        lemma_entries_rank(g, m);
        let head = ordered_up_to(g, m);
        let tail = entries(g, m);
        let all = ordered_up_to(g, n);
        assert(all == head + tail);
        assert forall|i: int| 0 <= i < all.len() implies rank(#[trigger] all[i]) < n by {
            if i < head.len() {
                assert(all[i] == head[i]);
            } else {
                assert(all[i] == tail[i - head.len()]);
            }
        }
        assert forall|i: int, j: int| 0 <= i <= j < all.len() implies rank(#[trigger] all[i]) <= rank(
            #[trigger] all[j],
        ) by {
            if j < head.len() {
                assert(all[i] == head[i]);
                assert(all[j] == head[j]);
            } else if i < head.len() {
                assert(all[i] == head[i]);
                assert(all[j] == tail[j - head.len()]);
            } else {
                assert(all[i] == tail[i - head.len()]);
                assert(all[j] == tail[j - head.len()]);
            }
        }
    }
}

/// The order of enforcement follows the priority table for every group:
/// a constraint never runs before one of a lower rank.
pub proof fn lemma_linear_order_sorted(g: ConstraintGroupView)
    ensures
        forall|i: int, j: int|
            0 <= i <= j < linear_order(g).len() ==> rank(#[trigger] linear_order(g)[i]) <= rank(
                #[trigger] linear_order(g)[j],
            ),
{
    lemma_ordered_up_to_sorted(g, rank_count());
}

/// Whatever else a group declares, its `init` and `seeds` constraints run
/// before each of its `has_one` constraints: the address is established
/// before the account's content is read.
pub proof fn lemma_identity_before_has_one(g: ConstraintGroupView, i: int, j: int)
    requires
        0 <= i < linear_order(g).len(),
        0 <= j < linear_order(g).len(),
        linear_order(g)[i] is Init || linear_order(g)[i] is Seeds,
        linear_order(g)[j] is HasOne,
    ensures
        i < j,
{
    lemma_linear_order_sorted(g);
    if j <= i {
        assert(rank(linear_order(g)[j]) <= rank(linear_order(g)[i]));
    }
}

/// A group that declares `init` or `seeds` together with `has_one` has them
/// in its sequence: the ordering law above is not vacuous.
pub proof fn lemma_identity_and_has_one_present(g: ConstraintGroupView)
    requires
        g.init is Some || g.seeds is Some,
        g.has_one.len() > 0,
    ensures
        exists|i: int, j: int|
            0 <= i < j < linear_order(g).len() && (linear_order(g)[i] is Init || linear_order(g)[i] is Seeds)
                && linear_order(g)[j] is HasOne,
{
    let s3 = ordered_up_to(g, 3);
    let s2 = ordered_up_to(g, 2);
    let s1 = ordered_up_to(g, 1);
    assert(s2 == s1 + entries(g, 1));
    assert(s3 == s2 + entries(g, 2));
    let i: int = if g.init is Some {
        s1.len() as int
    } else {
        s2.len() as int
    };
    assert(0 <= i < s3.len() && (s3[i] is Init || s3[i] is Seeds)) by {
        if g.init is Some {
            assert(s2[i] == entries(g, 1)[0]);
            assert(s3[i] == s2[i]);
        } else {
            assert(s3[i] == entries(g, 2)[0]);
        }
    }
    let s6 = ordered_up_to(g, 6);
    lemma_prefix(g, 3, 6);
    assert(s6.subrange(0, s3.len() as int) == s3);
    let s7 = ordered_up_to(g, 7);
    assert(s7 == s6 + entries(g, 6));
    let j = s6.len() as int;
    assert(s7[j] == entries(g, 6)[0]);
    assert(s7[i] == s6[i]);
    assert(s6[i] == s6.subrange(0, s3.len() as int)[i]);
    lemma_prefix(g, 7, 16);
    let all = linear_order(g);
    assert(all.subrange(0, s7.len() as int) == s7);
    assert(all[i] == all.subrange(0, s7.len() as int)[i]);
    assert(all[j] == all.subrange(0, s7.len() as int)[j]);
    assert(0 <= i < j < all.len() && (all[i] is Init || all[i] is Seeds) && all[j] is HasOne);
}

/// The sequence of the first `m` classes is a prefix of that of the first `n`.
pub proof fn lemma_prefix(g: ConstraintGroupView, m: nat, n: nat)
    requires
        m <= n,
    ensures
        ordered_up_to(g, m).len() <= ordered_up_to(g, n).len(),
        ordered_up_to(g, n).subrange(0, ordered_up_to(g, m).len() as int) == ordered_up_to(g, m),
    decreases n,
{
    if m < n {
        lemma_prefix(g, m, (n - 1) as nat);
        let shorter = ordered_up_to(g, (n - 1) as nat);
        assert(ordered_up_to(g, n) == shorter + entries(g, (n - 1) as nat));
        assert(ordered_up_to(g, n).subrange(0, ordered_up_to(g, m).len() as int) =~= shorter.subrange(
            0,
            ordered_up_to(g, m).len() as int,
        ));
    } else {
        assert(ordered_up_to(g, n).subrange(0, ordered_up_to(g, m).len() as int) =~= ordered_up_to(g, m));
    }
}

/// One for a slot that is filled, zero for one that is not.
pub open spec fn one(declared: bool) -> nat {
    if declared {
        1
    } else {
        0
    }
}

/// The number of constraints that a group declares.
pub open spec fn declared_count(g: ConstraintGroupView) -> nat {
    one(g.zeroed is Some) + one(g.init is Some) + one(g.seeds is Some) + one(
        g.associated_token is Some,
    ) + one(g.mutable is Some) + one(g.signer is Some) + g.has_one.len() + one(g.dup is Some)
        + g.literal.len() + g.raw.len() + one(g.owner is Some) + one(g.rent_exempt is Some) + one(
        g.executable is Some,
    ) + one(g.state is Some) + one(g.close is Some) + one(g.address is Some)
}

/// The sequence holds every declared constraint, and nothing else: it is as
/// long as the group has declarations, and each priority class contributes
/// exactly its slot.
pub proof fn lemma_linear_order_complete(g: ConstraintGroupView)
    ensures
        linear_order(g).len() == declared_count(g),
{
    lemma_class_len(g, 0);
    lemma_class_len(g, 1);
    lemma_class_len(g, 2);
    lemma_class_len(g, 3);
    lemma_class_len(g, 4);
    lemma_class_len(g, 5);
    lemma_class_len(g, 6);
    lemma_class_len(g, 7);
    lemma_class_len(g, 8);
    lemma_class_len(g, 9);
    lemma_class_len(g, 10);
    lemma_class_len(g, 11);
    lemma_class_len(g, 12);
    lemma_class_len(g, 13);
    lemma_class_len(g, 14);
    lemma_class_len(g, 15);
}

/// Each priority class adds to the sequence what the group contributes to it.
pub proof fn lemma_class_len(g: ConstraintGroupView, n: nat)
    ensures
        ordered_up_to(g, n + 1).len() == ordered_up_to(g, n).len() + entries(g, n).len(),
        ordered_up_to(g, 0).len() == 0,
{
}

} // verus!
