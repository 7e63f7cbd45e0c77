//! The 7-bag piece supply: pieces are drawn from a bag that is refilled with
//! one of each type, in random order, whenever it is found empty.

use vstd::prelude::*;
use vstd::seq_lib::group_to_multiset_ensures;
use crate::random::shuffle;
use crate::tetromino::{all_types, TetrominoType};

verus! {

/// The bag holds each of the seven types exactly once, in some order.
pub open spec fn is_full_bag(bag: Seq<TetrominoType>) -> bool {
    bag.to_multiset() == all_types().to_multiset()
}

/// No type occurs twice in the bag.
pub open spec fn each_at_most_once(bag: Seq<TetrominoType>) -> bool {
    forall|t: TetrominoType| bag.to_multiset().count(t) <= 1
}

/// One draw that finds the bag as `before`, when an empty bag is replaced by
/// `refill`: the last piece of the bag is taken.
pub open spec fn drawn_from(
    before: Seq<TetrominoType>,
    refill: Seq<TetrominoType>,
) -> (TetrominoType, Seq<TetrominoType>) {
    let source = if before.len() == 0 {
        refill
    } else {
        before
    };
    (source.last(), source.drop_last())
}

/// One draw takes the bag from `before` to `after` and hands out `drawn`,
/// whatever order a refill came in.
pub open spec fn bag_draw(
    before: Seq<TetrominoType>,
    drawn: TetrominoType,
    after: Seq<TetrominoType>,
) -> bool {
    if before.len() == 0 {
        is_full_bag(after.push(drawn))
    } else {
        drawn == before.last() && after == before.drop_last()
    }
}

/// A run of draws: draw `i` takes the bag from `bags[i]` to `bags[i + 1]`
/// and hands out `drawn[i]`.
pub open spec fn bag_run(bags: Seq<Seq<TetrominoType>>, drawn: Seq<TetrominoType>) -> bool {
    &&& bags.len() == drawn.len() + 1
    &&& forall|i: int| 0 <= i < drawn.len() ==> bag_draw(bags[i], #[trigger] drawn[i], bags[i + 1])
}

/// The fixed order holds each type exactly once.
pub proof fn lemma_all_types_once()
    ensures
        all_types().len() == 7,
        forall|t: TetrominoType| all_types().to_multiset().count(t) == 1,
        is_full_bag(all_types()),
{
    broadcast use group_to_multiset_ensures;

    let e = Seq::<TetrominoType>::empty();
    let s1 = e.push(TetrominoType::I);
    let s2 = s1.push(TetrominoType::O);
    let s3 = s2.push(TetrominoType::T);
    let s4 = s3.push(TetrominoType::S);
    let s5 = s4.push(TetrominoType::Z);
    let s6 = s5.push(TetrominoType::J);
    let s7 = s6.push(TetrominoType::L);
    assert(s7 =~= all_types());
    assert(e.to_multiset() =~= vstd::multiset::Multiset::empty());
    assert forall|t: TetrominoType| all_types().to_multiset().count(t) == 1 by {
        assert(s1.to_multiset() == e.to_multiset().insert(TetrominoType::I));
        assert(s2.to_multiset() == s1.to_multiset().insert(TetrominoType::O));
        assert(s3.to_multiset() == s2.to_multiset().insert(TetrominoType::T));
        assert(s4.to_multiset() == s3.to_multiset().insert(TetrominoType::S));
        assert(s5.to_multiset() == s4.to_multiset().insert(TetrominoType::Z));
        assert(s6.to_multiset() == s5.to_multiset().insert(TetrominoType::J));
        assert(s7.to_multiset() == s6.to_multiset().insert(TetrominoType::L));
    }
}

/// The empty bag holds no type at all.
pub proof fn lemma_empty_bag()
    ensures
        each_at_most_once(Seq::<TetrominoType>::empty()),
{
    broadcast use group_to_multiset_ensures;

    assert(Seq::<TetrominoType>::empty().to_multiset() =~= vstd::multiset::Multiset::empty());
}

/// A full bag has seven pieces, one of each type.
pub proof fn lemma_full_bag(bag: Seq<TetrominoType>)
    requires
        is_full_bag(bag),
    ensures
        bag.len() == 7,
        forall|t: TetrominoType| bag.to_multiset().count(t) == 1,
        each_at_most_once(bag),
{
    broadcast use group_to_multiset_ensures;

    lemma_all_types_once();
    assert(bag.len() == bag.to_multiset().len());
    assert(all_types().len() == all_types().to_multiset().len());
}

/// Seven pieces among which every type occurs are a full bag.
pub proof fn lemma_full_bag_by_contents(bag: Seq<TetrominoType>)
    requires
        bag.len() == 7,
        forall|t: TetrominoType| bag.contains(t),
    ensures
        is_full_bag(bag),
{
    broadcast use group_to_multiset_ensures;

    lemma_all_types_once();
    let held = bag.to_multiset();
    let all = all_types().to_multiset();
    assert(held.len() == 7 && all.len() == 7) by {
        assert(bag.len() == held.len());
        assert(all_types().len() == all.len());
    }
    assert forall|t: TetrominoType| all.count(t) <= held.count(t) by {
        assert(bag.contains(t));
    }
    assert(all.subset_of(held));
    let rest = held.sub(all);
    assert(rest.len() == 0);
    vstd::multiset::lemma_multiset_empty_len(rest);
    assert forall|t: TetrominoType| held.count(t) == all.count(t) by {
        assert(rest.count(t) == 0);
    }
    assert(held =~= all);
}

/// Taking the last piece out of a bag lowers the count of its type by one
/// and leaves the other counts alone.
pub proof fn lemma_take_last(bag: Seq<TetrominoType>)
    requires
        bag.len() > 0,
    ensures
        bag.drop_last().to_multiset() == bag.to_multiset().remove(bag.last()),
        bag.to_multiset() == bag.drop_last().to_multiset().insert(bag.last()),
        each_at_most_once(bag) ==> each_at_most_once(bag.drop_last()),
{
    broadcast use group_to_multiset_ensures;

    assert(bag.drop_last().push(bag.last()) =~= bag);
    assert(bag.to_multiset() =~= bag.drop_last().to_multiset().insert(bag.last()));
    assert(bag.drop_last().to_multiset() =~= bag.to_multiset().remove(bag.last()));
}

/// Any stretch of a run of draws is a run of draws.
proof fn lemma_sub_run(
    bags: Seq<Seq<TetrominoType>>,
    drawn: Seq<TetrominoType>,
    from: int,
    to: int,
)
    requires
        bag_run(bags, drawn),
        0 <= from <= to <= drawn.len(),
    ensures
        bag_run(bags.subrange(from, to + 1), drawn.subrange(from, to)),
{
    let sub_bags = bags.subrange(from, to + 1);
    let sub_drawn = drawn.subrange(from, to);
    assert forall|i: int| 0 <= i < sub_drawn.len() implies bag_draw(
        sub_bags[i],
        #[trigger] sub_drawn[i],
        sub_bags[i + 1],
    ) by {
        assert(sub_drawn[i] == drawn[from + i]);
        assert(sub_bags[i] == bags[from + i]);
        assert(sub_bags[i + 1] == bags[from + i + 1]);
    }
}

/// While the bag does not run empty, the pieces handed out are the pieces
/// that leave the bag.
proof fn lemma_drain(bags: Seq<Seq<TetrominoType>>, drawn: Seq<TetrominoType>)
    requires
        bag_run(bags, drawn),
        bags[0].len() >= drawn.len(),
    ensures
        bags.last().len() == bags[0].len() - drawn.len(),
        bags[0].to_multiset() == bags.last().to_multiset().add(drawn.to_multiset()),
    decreases drawn.len(),
{
    broadcast use group_to_multiset_ensures;

    let n = drawn.len() as int;
    if n == 0 {
        assert(drawn.to_multiset() =~= vstd::multiset::Multiset::empty());
        assert(bags[0].to_multiset() =~= bags.last().to_multiset().add(drawn.to_multiset()));
    } else {
        lemma_sub_run(bags, drawn, 0, n - 1);
        let head_bags = bags.subrange(0, n);
        let head_drawn = drawn.subrange(0, n - 1);
        lemma_drain(head_bags, head_drawn);
        assert(head_bags[0] == bags[0]);
        assert(head_bags.last() == bags[n - 1]);
        assert(bag_draw(bags[n - 1], drawn[n - 1], bags[n]));
        lemma_take_last(bags[n - 1]);
        assert(head_drawn.push(drawn[n - 1]) =~= drawn);
        assert(bags[0].to_multiset() =~= bags.last().to_multiset().add(drawn.to_multiset()));
    }
}

/// Seven draws that start on an empty bag hand out each type exactly once
/// and leave the bag empty.
proof fn lemma_cycle(bags: Seq<Seq<TetrominoType>>, drawn: Seq<TetrominoType>)
    requires
        bag_run(bags, drawn),
        bags[0].len() == 0,
        drawn.len() == 7,
    ensures
        bags.last().len() == 0,
        is_full_bag(drawn),
{
    broadcast use group_to_multiset_ensures;

    assert(bag_draw(bags[0], drawn[0], bags[1]));
    lemma_full_bag(bags[1].push(drawn[0]));
    lemma_sub_run(bags, drawn, 1, 7);
    let rest_bags = bags.subrange(1, 8);
    let rest_drawn = drawn.subrange(1, 7);
    assert(rest_bags[0] == bags[1]);
    assert(rest_bags.last() == bags.last());
    lemma_drain(rest_bags, rest_drawn);
    assert(bags.last().to_multiset() =~= vstd::multiset::Multiset::empty());
    assert(rest_drawn.insert(0, drawn[0]) =~= drawn);
    assert(drawn.to_multiset() =~= all_types().to_multiset());
}

/// From a fresh bag, `7 * k` draws hand out each type exactly `k` times and
/// leave the bag empty.
pub proof fn lemma_draws_are_fair(
    bags: Seq<Seq<TetrominoType>>,
    drawn: Seq<TetrominoType>,
    k: nat,
)
    requires
        bag_run(bags, drawn),
        bags[0].len() == 0,
        drawn.len() == 7 * k,
    ensures
        bags.last().len() == 0,
        forall|t: TetrominoType| drawn.to_multiset().count(t) == k,
    decreases k,
{
    broadcast use group_to_multiset_ensures;

    if k == 0 {
        assert(drawn.to_multiset() =~= vstd::multiset::Multiset::empty());
    } else {
        let m = 7 * (k - 1);
        lemma_sub_run(bags, drawn, 0, m);
        lemma_sub_run(bags, drawn, m, m + 7);
        let head_bags = bags.subrange(0, m + 1);
        let head_drawn = drawn.subrange(0, m);
        let tail_bags = bags.subrange(m, m + 8);
        let tail_drawn = drawn.subrange(m, m + 7);
        assert(head_bags[0] == bags[0]);
        lemma_draws_are_fair(head_bags, head_drawn, (k - 1) as nat);
        assert(tail_bags[0] == head_bags.last());
        assert(tail_bags.last() == bags.last());
        lemma_cycle(tail_bags, tail_drawn);
        lemma_all_types_once();
        assert(head_drawn + tail_drawn =~= drawn);
        vstd::seq_lib::lemma_multiset_commutative(head_drawn, tail_drawn);
    }
}

/// Seven draws from a fresh bag hand out each of the seven types exactly
/// once.
pub proof fn lemma_seven_draws(bags: Seq<Seq<TetrominoType>>, drawn: Seq<TetrominoType>)
    requires
        bag_run(bags, drawn),
        bags[0].len() == 0,
        drawn.len() == 7,
    ensures
        forall|t: TetrominoType| drawn.to_multiset().count(t) == 1,
{
    lemma_draws_are_fair(bags, drawn, 1);
}

/// Fourteen draws from a fresh bag hand out each of the seven types exactly
/// twice.
pub proof fn lemma_fourteen_draws(bags: Seq<Seq<TetrominoType>>, drawn: Seq<TetrominoType>)
    requires
        bag_run(bags, drawn),
        bags[0].len() == 0,
        drawn.len() == 14,
    ensures
        forall|t: TetrominoType| drawn.to_multiset().count(t) == 2,
{
    lemma_draws_are_fair(bags, drawn, 2);
}

/// The seven types in a random order.
pub fn shuffled_types() -> (bag: Vec<TetrominoType>)
    ensures
        is_full_bag(bag@),
{
    let mut bag: Vec<TetrominoType> = vec![
        TetrominoType::I,
        TetrominoType::O,
        TetrominoType::T,
        TetrominoType::S,
        TetrominoType::Z,
        TetrominoType::J,
        TetrominoType::L,
    ];
    assert(bag@ =~= all_types());
    shuffle(&mut bag);
    bag
}

/// The pieces still to be handed out before the next refill. The last one
/// is handed out first.
pub struct Bag {
    pending: Vec<TetrominoType>,
}

impl View for Bag {
    type V = Seq<TetrominoType>;

    closed spec fn view(&self) -> Seq<TetrominoType> {
        self.pending@
    }
}

impl Bag {
    #[verifier::type_invariant]
    spec fn wf(self) -> bool {
        self.pending@.len() <= 7 && each_at_most_once(self.pending@)
    }

    /// An empty bag: the first draw refills it.
    pub fn new() -> (bag: Bag)
        ensures
            bag@.len() == 0,
    {
        proof {
            lemma_empty_bag();
        }
        Bag { pending: Vec::new() }
    }

    /// Number of pieces left before the next refill. A bag never holds a
    /// type twice, nor more than seven pieces.
    pub fn len(&self) -> (n: usize)
        ensures
            n == self@.len(),
            n <= 7,
            each_at_most_once(self@),
    {
        proof {
            use_type_invariant(self);
        }
        self.pending.len()
    }

    /// Takes the last piece out of a bag that is not empty.
    fn take_last(&mut self) -> (drawn: TetrominoType)
        requires
            old(self)@.len() > 0,
        ensures
            drawn == old(self)@.last(),
            final(self)@ == old(self)@.drop_last(),
    {
        proof {
            use_type_invariant(&*self);
            lemma_take_last(self.pending@);
            lemma_empty_bag();
        }
        let mut pending: Vec<TetrominoType> = Vec::new();
        std::mem::swap(&mut pending, &mut self.pending);
        let drawn = pending.pop().unwrap();
        assert(pending@ =~= old(self).pending@.drop_last());
        self.pending = pending;
        drawn
    }

    /// Draws the next piece. An empty bag is first replaced by `refill`.
    pub fn draw_with(&mut self, refill: Vec<TetrominoType>) -> (drawn: TetrominoType)
        requires
            is_full_bag(refill@),
        ensures
            (drawn, final(self)@) == drawn_from(old(self)@, refill@),
            bag_draw(old(self)@, drawn, final(self)@),
    {
        proof {
            lemma_full_bag(refill@);
        }
        if self.pending.len() == 0 {
            self.pending = refill;
        }
        let ghost source = self.pending@;
        let drawn = self.take_last();
        assert(self@.push(drawn) =~= source);
        drawn
    }

    /// Draws the next piece. An empty bag is first refilled with one of each
    /// type in random order.
    pub fn draw(&mut self) -> (drawn: TetrominoType)
        ensures
            bag_draw(old(self)@, drawn, final(self)@),
    {
        if self.pending.len() == 0 {
            self.draw_with(shuffled_types())
        } else {
            self.take_last()
        }
    }
}

} // verus!
