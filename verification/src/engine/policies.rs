//! Random policies that prefer one kind of move.

use rand::seq::SliceRandom;
use vstd::prelude::*;

verus! {

/// A legal move of the current player, with what move generation says of it.
#[derive(Clone, Copy, PartialEq, Eq, Debug, Structural)]
pub struct Move {
    /// The index of the action.
    pub action: usize,
    /// The move takes a revealed piece.
    pub is_capture: bool,
    /// The move turns a hidden piece over.
    pub is_flip: bool,
}

/// The actions of the moves that satisfy `keep`, in order.
pub open spec fn actions_where(moves: Seq<Move>, keep: spec_fn(Move) -> bool) -> Seq<usize> {
    moves.filter(keep).map_values(|m: Move| m.action)
}

/// Moves that take a revealed piece.
pub open spec fn is_capture() -> spec_fn(Move) -> bool {
    |m: Move| m.is_capture
}

/// Moves that turn a hidden piece over.
pub open spec fn is_flip() -> spec_fn(Move) -> bool {
    |m: Move| !m.is_capture && m.is_flip
}

/// All other moves: onto empty squares, by cannon, or onto hidden pieces.
pub open spec fn is_other() -> spec_fn(Move) -> bool {
    |m: Move| !m.is_capture && !m.is_flip
}

/// Extending a list of moves by one.
proof fn lemma_actions_push(moves: Seq<Move>, keep: spec_fn(Move) -> bool, i: int)
    requires
        0 <= i < moves.len(),
    ensures
        actions_where(moves.take(i + 1), keep) == if keep(moves[i]) {
            actions_where(moves.take(i), keep).push(moves[i].action)
        } else {
            actions_where(moves.take(i), keep)
        },
{
    reveal_with_fuel(Seq::filter, 2);
    let longer = moves.take(i + 1);
    assert(longer.drop_last() =~= moves.take(i));
    assert(longer.last() == moves[i]);
    assert(actions_where(longer, keep) =~= if keep(moves[i]) {
        actions_where(moves.take(i), keep).push(moves[i].action)
    } else {
        actions_where(moves.take(i), keep)
    });
}

/// The actions of the moves by kind: captures, flips, and all others.
pub fn bucket_actions(moves: &[Move]) -> (r: (Vec<usize>, Vec<usize>, Vec<usize>))
    ensures
        r.0@ == actions_where(moves@, is_capture()),
        r.1@ == actions_where(moves@, is_flip()),
        r.2@ == actions_where(moves@, is_other()),
{
    let mut captures: Vec<usize> = Vec::new();
    let mut flips: Vec<usize> = Vec::new();
    let mut others: Vec<usize> = Vec::new();
    let mut i: usize = 0;
    proof {
        reveal(Seq::filter);
        assert(moves@.take(0) =~= Seq::empty());
        assert(captures@ =~= actions_where(moves@.take(0), is_capture()));
        assert(flips@ =~= actions_where(moves@.take(0), is_flip()));
        assert(others@ =~= actions_where(moves@.take(0), is_other()));
    }
    while i < moves.len()
        invariant
            i <= moves@.len(),
            captures@ == actions_where(moves@.take(i as int), is_capture()),
            flips@ == actions_where(moves@.take(i as int), is_flip()),
            others@ == actions_where(moves@.take(i as int), is_other()),
        decreases moves@.len() - i,
    {
        let mv = moves[i];
        proof {
            lemma_actions_push(moves@, is_capture(), i as int);
            lemma_actions_push(moves@, is_flip(), i as int);
            lemma_actions_push(moves@, is_other(), i as int);
        }
        if mv.is_capture {
            captures.push(mv.action);
        } else if mv.is_flip {
            flips.push(mv.action);
        } else {
            others.push(mv.action);
        }
        i = i + 1;
    }
    assert(moves@.take(i as int) =~= moves@);
    (captures, flips, others)
}

/// One element of a list, at random: `choose` of `rand::seq::SliceRandom` with the generator of
/// the current thread. It returns nothing for an empty list, and else one of the elements. Which
/// one is left to chance, so nothing is said of it.
#[verifier::external_body]
fn pick(items: &[usize]) -> (r: Option<usize>)
    ensures
        r is None <==> items@.len() == 0,
        r matches Some(item) ==> items@.contains(item),
{
    items.choose(&mut rand::thread_rng()).copied()
}

/// `r` is what a random draw from the whole list came to.
pub closed spec fn drawn(list: Seq<usize>, r: Option<usize>) -> bool {
    exists|items: &[usize]| items@ == list && #[trigger] call_ensures(pick, (items,), r)
}

/// A choice is drawn from all of its candidates.
proof fn law_draws_are_from_the_whole_list(list: Seq<usize>, r: Option<usize>)
    requires
        drawn(list, r),
    ensures
        exists|items: &[usize]| items@ == list && #[trigger] call_ensures(pick, (items,), r),
{
}

/// Draws from a list with `draw`.
fn draw_with<F: Fn(&[usize]) -> Option<usize>>(items: &[usize], draw: F) -> (r: Option<usize>)
    requires
        call_requires(draw, (items,)),
    ensures
        call_ensures(draw, (items,), r),
{
    draw(items)
}

/// One element of a list, at random.
fn draw_from(items: &[usize]) -> (r: Option<usize>)
    ensures
        drawn(items@, r),
        r is None <==> items@.len() == 0,
        r matches Some(item) ==> items@.contains(item),
{
    draw_with(items, pick)
}

/// A way to choose among the legal moves: it narrows them down to candidates and takes one of
/// these at random.
pub trait Policy {
    /// The actions among which the policy chooses.
    spec fn candidates(moves: Seq<Move>) -> Seq<usize>;

    /// Each candidate is the action of a legal move, and there is one whenever there is a move.
    proof fn law_candidates_are_legal(moves: Seq<Move>)
        ensures
            forall|action: usize| #[trigger]
                Self::candidates(moves).contains(action) ==> exists|i: int|
                    0 <= i < moves.len() && (#[trigger] moves[i]).action == action,
            Self::candidates(moves).len() == 0 <==> moves.len() == 0,
    ;

    /// The actions among which the policy chooses.
    fn candidate_actions(moves: &[Move]) -> (r: Vec<usize>)
        ensures
            r@ == Self::candidates(moves@),
    ;

    /// Chooses an action: one of the candidates, or nothing where there is no legal move.
    fn choose_action(moves: &[Move]) -> (r: Option<usize>)
        ensures
            r is None <==> moves@.len() == 0,
            r matches Some(action) ==> Self::candidates(moves@).contains(action),
            drawn(Self::candidates(moves@), r),
    ;
}

/// Chooses a flip where there is one, else any other legal move.
pub struct RevealFirstPolicy;

/// Chooses a capture where there is one, else a flip where there is one, else any other legal
/// move.
pub struct CaptureFirstPolicy;

/// A kept action belongs to a kept move, and the other way round.
proof fn lemma_actions_where(moves: Seq<Move>, keep: spec_fn(Move) -> bool)
    ensures
        forall|action: usize| #[trigger]
            actions_where(moves, keep).contains(action) ==> exists|i: int|
                0 <= i < moves.len() && (#[trigger] moves[i]).action == action && keep(moves[i]),
        forall|i: int|
            0 <= i < moves.len() && keep(#[trigger] moves[i]) ==> actions_where(
                moves,
                keep,
            ).contains(moves[i].action),
{
    let kept = moves.filter(keep);
    assert forall|action: usize| #[trigger]
        actions_where(moves, keep).contains(action) implies exists|i: int|
        0 <= i < moves.len() && (#[trigger] moves[i]).action == action && keep(moves[i]) by {
        let k = choose|k: int|
            0 <= k < actions_where(moves, keep).len() && actions_where(moves, keep)[k] == action;
        assert(kept[k].action == action);
        moves.lemma_filter_contains_rev(keep, kept[k]);
        moves.lemma_filter_pred(keep, k);
        let i = choose|i: int| 0 <= i < moves.len() && moves[i] == kept[k];
        assert(moves[i].action == action);
    }
    assert forall|i: int| 0 <= i < moves.len() && keep(#[trigger] moves[i]) implies actions_where(
        moves,
        keep,
    ).contains(moves[i].action) by {
        moves.lemma_filter_contains(keep, i);
        let k = choose|k: int| 0 <= k < kept.len() && kept[k] == moves[i];
        assert(actions_where(moves, keep)[k] == moves[i].action);
    }
}

impl Policy for RevealFirstPolicy {
    open spec fn candidates(moves: Seq<Move>) -> Seq<usize> {
        let flips = actions_where(moves, is_flip());
        if flips.len() > 0 {
            flips
        } else {
            actions_where(moves, is_capture()) + actions_where(moves, is_other())
        }
    }

    proof fn law_candidates_are_legal(moves: Seq<Move>) {
        lemma_candidates_from_buckets(moves);
        let captures = actions_where(moves, is_capture());
        let others = actions_where(moves, is_other());
        assert forall|action: usize| #[trigger] (captures + others).contains(action) implies (
        captures.contains(action) || others.contains(action)) by {
            let k = choose|k: int|
                0 <= k < (captures + others).len() && (captures + others)[k] == action;
            if k < captures.len() {
                assert(captures[k] == action);
            } else {
                assert(others[k - captures.len()] == action);
            }
        }
    }

    fn candidate_actions(moves: &[Move]) -> (r: Vec<usize>) {
        let (captures, flips, others) = bucket_actions(moves);
        if !flips.is_empty() {
            return flips;
        }
        let mut fallback = captures;
        fallback.extend_from_slice(others.as_slice());
        fallback
    }

    fn choose_action(moves: &[Move]) -> (r: Option<usize>) {
        proof {
            Self::law_candidates_are_legal(moves@);
        }
        draw_from(Self::candidate_actions(moves).as_slice())
    }
}

impl Policy for CaptureFirstPolicy {
    open spec fn candidates(moves: Seq<Move>) -> Seq<usize> {
        let captures = actions_where(moves, is_capture());
        let flips = actions_where(moves, is_flip());
        if captures.len() > 0 {
            captures
        } else if flips.len() > 0 {
            flips
        } else {
            actions_where(moves, is_other())
        }
    }

    proof fn law_candidates_are_legal(moves: Seq<Move>) {
        lemma_candidates_from_buckets(moves);
    }

    fn candidate_actions(moves: &[Move]) -> (r: Vec<usize>) {
        let (captures, flips, others) = bucket_actions(moves);
        if !captures.is_empty() {
            return captures;
        }
        if !flips.is_empty() {
            return flips;
        }
        others
    }

    fn choose_action(moves: &[Move]) -> (r: Option<usize>) {
        proof {
            Self::law_candidates_are_legal(moves@);
        }
        draw_from(Self::candidate_actions(moves).as_slice())
    }
}

/// Every action in a bucket is legal, and some bucket holds an action unless there is no move.
proof fn lemma_candidates_from_buckets(moves: Seq<Move>)
    ensures
        forall|action: usize|
            #![trigger actions_where(moves, is_capture()).contains(action)]
            #![trigger actions_where(moves, is_flip()).contains(action)]
            #![trigger actions_where(moves, is_other()).contains(action)]
            actions_where(moves, is_capture()).contains(action) || actions_where(
                moves,
                is_flip(),
            ).contains(action) || actions_where(moves, is_other()).contains(action)
                ==> exists|i: int| 0 <= i < moves.len() && (#[trigger] moves[i]).action == action,
        actions_where(moves, is_capture()).len() == 0 && actions_where(moves, is_flip()).len() == 0
            && actions_where(moves, is_other()).len() == 0 <==> moves.len() == 0,
{
    lemma_actions_where(moves, is_capture());
    lemma_actions_where(moves, is_flip());
    lemma_actions_where(moves, is_other());
    if moves.len() == 0 {
        assert(moves =~= Seq::empty());
        reveal(Seq::filter);
    } else {
        assert(is_capture()(moves[0]) || is_flip()(moves[0]) || is_other()(moves[0]));
    }
}

/// The buckets hold exactly the actions of all moves: none is lost, none is counted twice.
pub proof fn law_buckets_partition_moves(moves: Seq<Move>)
    ensures
        (actions_where(moves, is_capture()) + actions_where(moves, is_flip()) + actions_where(
            moves,
            is_other(),
        )).to_multiset() == moves.map_values(|m: Move| m.action).to_multiset(),
{
    lemma_bucket_prefix(moves, moves.len() as int);
    assert(moves.take(moves.len() as int) =~= moves);
}

proof fn lemma_bucket_prefix(moves: Seq<Move>, n: int)
    requires
        0 <= n <= moves.len(),
    ensures
        (actions_where(moves.take(n), is_capture()) + actions_where(moves.take(n), is_flip())
            + actions_where(moves.take(n), is_other())).to_multiset() == moves.take(n).map_values(
            |m: Move| m.action,
        ).to_multiset(),
    decreases n,
{
    broadcast use vstd::seq_lib::group_to_multiset_ensures;
    broadcast use vstd::multiset::group_multiset_axioms;

    let action = |m: Move| m.action;
    if n == 0 {
        reveal(Seq::filter);
        assert(moves.take(0) =~= Seq::empty());
        assert(actions_where(moves.take(0), is_capture()) + actions_where(
            moves.take(0),
            is_flip(),
        ) + actions_where(moves.take(0), is_other()) =~= moves.take(0).map_values(action));
    } else {
        let p = n - 1;
        lemma_bucket_prefix(moves, p);
        lemma_actions_push(moves, is_capture(), p);
        lemma_actions_push(moves, is_flip(), p);
        lemma_actions_push(moves, is_other(), p);
        let c0 = actions_where(moves.take(p), is_capture());
        let f0 = actions_where(moves.take(p), is_flip());
        let o0 = actions_where(moves.take(p), is_other());
        let c1 = actions_where(moves.take(n), is_capture());
        let f1 = actions_where(moves.take(n), is_flip());
        let o1 = actions_where(moves.take(n), is_other());
        let a = moves[p].action;
        assert(moves.take(n).map_values(action) =~= moves.take(p).map_values(action).push(a));
        vstd::seq_lib::lemma_multiset_commutative(c0 + f0, o0);
        vstd::seq_lib::lemma_multiset_commutative(c0, f0);
        vstd::seq_lib::lemma_multiset_commutative(c1 + f1, o1);
        vstd::seq_lib::lemma_multiset_commutative(c1, f1);
        assert((c1 + f1 + o1).to_multiset() =~= (c0 + f0 + o0).to_multiset().insert(a));
    }
}

/// Where a capture is legal, each candidate of [`CaptureFirstPolicy`] is a capture.
pub proof fn law_capture_first_captures(moves: Seq<Move>, action: usize)
    requires
        exists|i: int| 0 <= i < moves.len() && (#[trigger] moves[i]).is_capture,
        CaptureFirstPolicy::candidates(moves).contains(action),
    ensures
        exists|i: int|
            0 <= i < moves.len() && (#[trigger] moves[i]).action == action && moves[i].is_capture,
{
    lemma_actions_where(moves, is_capture());
    let w = choose|i: int| 0 <= i < moves.len() && (#[trigger] moves[i]).is_capture;
    assert(is_capture()(moves[w]));
    assert(actions_where(moves, is_capture()).contains(moves[w].action));
}

/// Where no capture is legal but a flip is, each candidate of [`CaptureFirstPolicy`] is a flip.
pub proof fn law_capture_first_then_flips(moves: Seq<Move>, action: usize)
    requires
        forall|i: int| 0 <= i < moves.len() ==> !(#[trigger] moves[i]).is_capture,
        exists|i: int| 0 <= i < moves.len() && (#[trigger] moves[i]).is_flip,
        CaptureFirstPolicy::candidates(moves).contains(action),
    ensures
        exists|i: int|
            0 <= i < moves.len() && (#[trigger] moves[i]).action == action && moves[i].is_flip,
{
    lemma_actions_where(moves, is_capture());
    lemma_actions_where(moves, is_flip());
    let captures = actions_where(moves, is_capture());
    if captures.len() > 0 {
        assert(captures.contains(captures[0]));
    }
    let w = choose|i: int| 0 <= i < moves.len() && (#[trigger] moves[i]).is_flip;
    assert(is_flip()(moves[w]));
    assert(actions_where(moves, is_flip()).contains(moves[w].action));
}

/// Where a flip is legal, each candidate of [`RevealFirstPolicy`] is a flip.
pub proof fn law_reveal_first_flips(moves: Seq<Move>, action: usize)
    requires
        exists|i: int|
            0 <= i < moves.len() && (#[trigger] moves[i]).is_flip && !moves[i].is_capture,
        RevealFirstPolicy::candidates(moves).contains(action),
    ensures
        exists|i: int|
            0 <= i < moves.len() && (#[trigger] moves[i]).action == action && moves[i].is_flip
                && !moves[i].is_capture,
{
    lemma_actions_where(moves, is_flip());
    let w = choose|i: int|
        0 <= i < moves.len() && (#[trigger] moves[i]).is_flip && !moves[i].is_capture;
    assert(is_flip()(moves[w]));
    assert(actions_where(moves, is_flip()).contains(moves[w].action));
}

/// Where no flip is legal, [`RevealFirstPolicy`] chooses among all legal moves. A move that also
/// takes a revealed piece counts as a capture.
pub proof fn law_reveal_first_falls_back_to_all(moves: Seq<Move>, i: int)
    requires
        forall|k: int|
            0 <= k < moves.len() ==> !((#[trigger] moves[k]).is_flip && !moves[k].is_capture),
        0 <= i < moves.len(),
    ensures
        RevealFirstPolicy::candidates(moves).contains(moves[i].action),
{
    lemma_actions_where(moves, is_capture());
    lemma_actions_where(moves, is_flip());
    lemma_actions_where(moves, is_other());
    let captures = actions_where(moves, is_capture());
    let flips = actions_where(moves, is_flip());
    let others = actions_where(moves, is_other());
    let action = moves[i].action;
    if flips.len() > 0 {
        assert(flips.contains(flips[0]));
    }
    assert(is_capture()(moves[i]) || is_other()(moves[i]));
    if captures.contains(action) {
        let k = choose|k: int| 0 <= k < captures.len() && captures[k] == action;
        assert((captures + others)[k] == action);
    } else {
        let k = choose|k: int| 0 <= k < others.len() && others[k] == action;
        assert((captures + others)[captures.len() + k] == action);
    }
}

/// A move that is added goes into one bucket, at its end: captures first of all, then flips, else
/// the others. The other two buckets stay as they are, and no moves fill no bucket.
pub proof fn law_moves_go_into_one_bucket(moves: Seq<Move>, mv: Move)
    ensures
        ({
            let (c, f, o) = (
                actions_where(moves, is_capture()),
                actions_where(moves, is_flip()),
                actions_where(moves, is_other()),
            );
            let longer = moves.push(mv);
            let (c2, f2, o2) = (
                actions_where(longer, is_capture()),
                actions_where(longer, is_flip()),
                actions_where(longer, is_other()),
            );
            &&& mv.is_capture ==> c2 == c.push(mv.action) && f2 == f && o2 == o
            &&& !mv.is_capture && mv.is_flip ==> c2 == c && f2 == f.push(mv.action) && o2 == o
            &&& !mv.is_capture && !mv.is_flip ==> c2 == c && f2 == f && o2 == o.push(mv.action)
        }),
        actions_where(Seq::empty(), is_capture()).len() == 0,
        actions_where(Seq::empty(), is_flip()).len() == 0,
        actions_where(Seq::empty(), is_other()).len() == 0,
{
    let longer = moves.push(mv);
    let n = moves.len() as int;
    assert(longer.take(n + 1) =~= longer);
    assert(longer.take(n) =~= moves);
    lemma_actions_push(longer, is_capture(), n);
    lemma_actions_push(longer, is_flip(), n);
    lemma_actions_push(longer, is_other(), n);
    reveal(Seq::filter);
}

/// Each capture is a candidate of [`CaptureFirstPolicy`] where there is one, as often as it is
/// legal; where there is none, each flip; where there is neither, each move.
pub proof fn law_capture_first_leaves_none_out(moves: Seq<Move>)
    ensures
        ({
            let action = |m: Move| m.action;
            let captures = moves.filter(|m: Move| m.is_capture);
            let flips = moves.filter(|m: Move| m.is_flip);
            let candidates = CaptureFirstPolicy::candidates(moves);
            &&& captures.len() > 0 ==> candidates == captures.map_values(action)
            &&& captures.len() == 0 && flips.len() > 0 ==> candidates == flips.map_values(action)
            &&& captures.len() == 0 && flips.len() == 0 ==> candidates == moves.map_values(action)
        }),
{
    let capture = |m: Move| m.is_capture;
    let flip = |m: Move| m.is_flip;
    lemma_filters_agree(moves, is_capture(), capture);
    if moves.filter(capture).len() == 0 {
        assert forall|i: int| 0 <= i < moves.len() implies !(#[trigger] moves[i]).is_capture by {
            if moves[i].is_capture {
                moves.lemma_filter_contains(capture, i);
            }
        }
        lemma_filters_agree(moves, is_flip(), flip);
        if moves.filter(flip).len() == 0 {
            assert forall|i: int| 0 <= i < moves.len() implies !(#[trigger] moves[i]).is_flip by {
                if moves[i].is_flip {
                    moves.lemma_filter_contains(flip, i);
                }
            }
            lemma_filter_keeps_all(moves, is_other());
        }
    }
}

/// Each flip is a candidate of [`RevealFirstPolicy`] where there is one, as often as it is legal;
/// where there is none, each move is, captures before all others.
pub proof fn law_reveal_first_leaves_none_out(moves: Seq<Move>)
    ensures
        ({
            let action = |m: Move| m.action;
            let flips = moves.filter(|m: Move| m.is_flip && !m.is_capture);
            let captures = moves.filter(|m: Move| m.is_capture);
            let others = moves.filter(|m: Move| !m.is_capture);
            let candidates = RevealFirstPolicy::candidates(moves);
            &&& flips.len() > 0 ==> candidates == flips.map_values(action)
            &&& flips.len() == 0 ==> candidates == captures.map_values(action) + others.map_values(
                action,
            )
            &&& flips.len() == 0 ==> candidates.to_multiset() == moves.map_values(
                action,
            ).to_multiset()
        }),
{
    let flip = |m: Move| m.is_flip && !m.is_capture;
    let capture = |m: Move| m.is_capture;
    let other = |m: Move| !m.is_capture;
    lemma_filters_agree(moves, is_flip(), flip);
    if moves.filter(flip).len() == 0 {
        assert forall|i: int| 0 <= i < moves.len() implies !((#[trigger] moves[i]).is_flip
            && !moves[i].is_capture) by {
            if moves[i].is_flip && !moves[i].is_capture {
                moves.lemma_filter_contains(flip, i);
            }
        }
        lemma_filters_agree(moves, is_capture(), capture);
        lemma_filters_agree(moves, is_other(), other);
        law_buckets_partition_moves(moves);
        let c = actions_where(moves, is_capture());
        let f = actions_where(moves, is_flip());
        let o = actions_where(moves, is_other());
        assert(c + f + o =~= c + o);
    }
}

/// Predicates that agree on all moves keep the same ones.
proof fn lemma_filters_agree(moves: Seq<Move>, a: spec_fn(Move) -> bool, b: spec_fn(Move) -> bool)
    requires
        forall|i: int| 0 <= i < moves.len() ==> a(#[trigger] moves[i]) == b(moves[i]),
    ensures
        moves.filter(a) == moves.filter(b),
    decreases moves.len(),
{
    reveal(Seq::filter);
    if moves.len() > 0 {
        let shorter = moves.drop_last();
        assert forall|i: int| 0 <= i < shorter.len() implies a(#[trigger] shorter[i]) == b(
            shorter[i],
        ) by {
            assert(shorter[i] == moves[i]);
        }
        lemma_filters_agree(shorter, a, b);
        assert(a(moves[moves.len() - 1]) == b(moves[moves.len() - 1]));
    }
}

/// A predicate that holds of all moves keeps all of them.
proof fn lemma_filter_keeps_all(moves: Seq<Move>, keep: spec_fn(Move) -> bool)
    requires
        forall|i: int| 0 <= i < moves.len() ==> keep(#[trigger] moves[i]),
    ensures
        moves.filter(keep) == moves,
    decreases moves.len(),
{
    reveal(Seq::filter);
    if moves.len() > 0 {
        let shorter = moves.drop_last();
        assert forall|i: int| 0 <= i < shorter.len() implies keep(#[trigger] shorter[i]) by {
            assert(shorter[i] == moves[i]);
        }
        lemma_filter_keeps_all(shorter, keep);
        assert(keep(moves[moves.len() - 1]));
        assert(shorter.push(moves.last()) =~= moves);
    } else {
        assert(moves.filter(keep) =~= moves);
    }
}

} // verus!
