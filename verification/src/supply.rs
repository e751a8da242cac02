use vstd::prelude::*;
use vstd::multiset::Multiset;
use std::collections::VecDeque;
use rand::seq::SliceRandom;
use crate::tetronimo::{spec_new_shape, Shape, Tetromino};

verus! {

/// The seven shapes, one of each: what every bag holds.
pub open spec fn bag_seq() -> Seq<Shape> {
    seq![Shape::O, Shape::I, Shape::T, Shape::L, Shape::J, Shape::S, Shape::Z]
}

/// The canonical bag as a multiset: each shape exactly once.
pub open spec fn bag_multiset() -> Multiset<Shape> {
    bag_seq().to_multiset()
}

/// Relies on rand's `SliceRandom::shuffle`, which permutes the slice
/// in place: the multiset of elements is unchanged.  Nothing is
/// assumed about the order that comes back.
#[verifier::external_body]
fn shuffle_shapes(v: &mut Vec<Shape>)
    ensures
        final(v)@.to_multiset() == old(v)@.to_multiset(),
{
    let mut rng = rand::thread_rng();
    v.shuffle(&mut rng);
}

/// Draw one independent random permutation of the full shape set.
fn draw_pieces() -> (r: Vec<Shape>)
    ensures
        r@.to_multiset() == bag_multiset(),
        r@.len() == 7,
{
    let mut new_pieces: Vec<Shape> = vec![
        Shape::O,
        Shape::I,
        Shape::T,
        Shape::L,
        Shape::J,
        Shape::S,
        Shape::Z,
    ];
    proof {
        assert(new_pieces@ =~= bag_seq());
    }
    shuffle_shapes(&mut new_pieces);
    proof {
        broadcast use vstd::seq_lib::group_to_multiset_ensures;

        assert(new_pieces@.len() == new_pieces@.to_multiset().len());
        assert(bag_seq().len() == bag_seq().to_multiset().len());
    }
    new_pieces
}

/// The piece supply: an unbounded-lookahead queue refilled lazily
/// with whole shuffled bags.  The ghost `history` records every
/// shape ever drawn, queued entries included, so that the bag
/// structure of the stream can be stated.
pub struct TetrominoGenerator {
    pub queue: VecDeque<Tetromino>,
    pub history: Ghost<Seq<Shape>>,
}

impl TetrominoGenerator {
    /// How many pieces have been popped so far: everything drawn
    /// minus what still waits in the queue.
    pub open spec fn taken(self) -> int {
        self.history@.len() - self.queue@.len()
    }

    /// The queue is the not-yet-popped tail of the drawn history,
    /// each entry a fresh piece of the recorded shape; the history
    /// is whole bags, each a permutation of the seven shapes.
    pub open spec fn inv(self) -> bool {
        &&& self.queue@.len() <= self.history@.len()
        &&& self.history@.len() % 7 == 0
        &&& forall|i: int|
            0 <= i < self.queue@.len() ==> #[trigger] self.queue@[i] == spec_new_shape(
                self.history@[self.taken() + i],
            )
        &&& forall|k: int|
            0 <= k && 7 * k + 7 <= self.history@.len() ==> #[trigger] self.history@.subrange(
                7 * k,
                7 * k + 7,
            ).to_multiset() == bag_multiset()
    }

    pub fn new() -> (r: Self)
        ensures
            r.inv(),
            r.queue@.len() == 0,
            r.history@.len() == 0,
    {
        TetrominoGenerator { queue: VecDeque::new(), history: Ghost(Seq::empty()) }
    }

    fn upcoming_queue_length(&self) -> (r: usize)
        ensures
            r == self.queue@.len(),
    {
        self.queue.len()
    }

    /// Append one freshly shuffled bag of seven pieces to the tail
    /// of the queue.
    fn extend(&mut self)
        requires
            old(self).inv(),
            old(self).queue@.len() + 7 <= usize::MAX,
        ensures
            final(self).inv(),
            final(self).queue@.len() == old(self).queue@.len() + 7,
            final(self).history@.len() == old(self).history@.len() + 7,
            final(self).history@.subrange(0, old(self).history@.len() as int) == old(
                self,
            ).history@,
            final(self).queue@.subrange(0, old(self).queue@.len() as int) == old(self).queue@,
            final(self).taken() == old(self).taken(),
    {
        let ghost orig = *self;
        let new_shapes = draw_pieces();
        let ghost shapes = new_shapes@;
        let mut idx: usize = 0;
        while idx < 7
            invariant
                orig.inv(),
                shapes.len() == 7,
                new_shapes@ == shapes,
                orig.queue@.len() + 7 <= usize::MAX,
                idx <= 7,
                self.history == orig.history,
                self.queue@.len() == orig.queue@.len() + idx,
                self.queue@.subrange(0, orig.queue@.len() as int) == orig.queue@,
                forall|t: int|
                    0 <= t < idx ==> #[trigger] self.queue@[orig.queue@.len() + t]
                        == spec_new_shape(shapes[t]),
            decreases 7 - idx,
        {
            let s = new_shapes[idx];
            self.queue.push_back(Tetromino::new_shape(s));
            proof {
                assert(self.queue@.subrange(0, orig.queue@.len() as int) =~= orig.queue@);
            }
            idx = idx + 1;
        }
        proof {
            self.history = Ghost(orig.history@ + shapes);
        }
        proof {
            let oh = orig.history@.len() as int;
            let oq = orig.queue@.len() as int;
            assert(self.history@.subrange(0, oh) =~= orig.history@);
            assert(self.history@.subrange(oh, oh + 7) =~= shapes);
            // every queue entry still matches its history slot
            assert forall|i: int| 0 <= i < self.queue@.len() implies #[trigger] self.queue@[i]
                == spec_new_shape(self.history@[self.taken() + i]) by {
                if i < oq {
                    assert(self.queue@[i] == orig.queue@[i]);
                    assert(self.history@[orig.taken() + i] == orig.history@[orig.taken() + i]);
                } else {
                    let t = i - oq;
                    assert(self.queue@[oq + t] == spec_new_shape(shapes[t]));
                    assert(self.history@[self.taken() + i] == shapes[self.taken() + i - oh]);
                }
            }
            // old bags are untouched, and the appended bag is one too
            assert forall|k: int| 0 <= k && 7 * k + 7 <= self.history@.len() implies #[trigger] self
                .history@.subrange(7 * k, 7 * k + 7).to_multiset() == bag_multiset() by {
                if 7 * k + 7 <= oh {
                    assert(self.history@.subrange(7 * k, 7 * k + 7) =~= orig.history@.subrange(
                        7 * k,
                        7 * k + 7,
                    ));
                } else {
                    assert(7 * k == oh) by (nonlinear_arith)
                        requires
                            oh % 7 == 0,
                            7 * k + 7 <= oh + 7,
                            oh < 7 * k + 7,
                    ;
                    assert(self.history@.subrange(7 * k, 7 * k + 7) =~= shapes);
                }
            }
        }
    }

    /// A copy of the `i`-th upcoming piece, refilling the queue with
    /// as many bags as the lookahead needs; nothing is removed.
    pub fn peek(&mut self, i: usize) -> (r: Tetromino)
        requires
            old(self).inv(),
            i + 7 <= usize::MAX,
        ensures
            final(self).inv(),
            i < final(self).queue@.len(),
            final(self).taken() == old(self).taken(),
            final(self).history@.len() >= old(self).history@.len(),
            final(self).history@.subrange(0, old(self).history@.len() as int) == old(
                self,
            ).history@,
            final(self).queue@.subrange(0, old(self).queue@.len() as int) == old(self).queue@,
            r == final(self).queue@[i as int],
            r == spec_new_shape(final(self).history@[final(self).taken() + i]),
    {
        let ghost orig = *self;
        proof {
            assert(orig.history@.subrange(0, orig.history@.len() as int) =~= orig.history@);
            assert(orig.queue@.subrange(0, orig.queue@.len() as int) =~= orig.queue@);
        }
        while self.upcoming_queue_length() < i + 1
            invariant
                self.inv(),
                orig.inv(),
                i + 7 <= usize::MAX,
                self.taken() == orig.taken(),
                self.history@.len() >= orig.history@.len(),
                self.history@.subrange(0, orig.history@.len() as int) == orig.history@,
                self.queue@.subrange(0, orig.queue@.len() as int) == orig.queue@,
            decreases i + 7 - self.queue@.len(),
        {
            self.extend();
            proof {
                assert(self.history@.subrange(0, orig.history@.len() as int) =~= orig.history@);
                assert(self.queue@.subrange(0, orig.queue@.len() as int) =~= orig.queue@);
            }
        }
        let r = self.queue[i];
        r
    }

    /// Remove and return the head of the queue, refilling it with a
    /// fresh bag first when it is empty.  The result is always the
    /// piece whose shape sits at position `taken` of the history.
    pub fn pop(&mut self) -> (r: Tetromino)
        requires
            old(self).inv(),
        ensures
            pop_rel(*old(self), *final(self), r),
    {
        if self.upcoming_queue_length() == 0 {
            self.extend();
        }
        let r = match self.queue.pop_front() {
            Some(t) => t,
            None => {
                proof {
                    assert(false);
                }
                Tetromino::new()
            },
        };
        r
    }
}

/// Exactly what one call of `pop` does to the generator: the queue
/// advances one piece (after a refill when it was empty), the
/// history only grows, and the piece handed out is the one recorded
/// at position `taken` of the history.
pub open spec fn pop_rel(
    pre: TetrominoGenerator,
    post: TetrominoGenerator,
    r: Tetromino,
) -> bool {
    &&& post.inv()
    &&& post.taken() == pre.taken() + 1
    &&& if pre.queue@.len() > 0 {
        &&& post.history@ == pre.history@
        &&& post.queue@ == pre.queue@.drop_first()
        &&& r == pre.queue@[0]
    } else {
        &&& post.history@.len() == pre.history@.len() + 7
        &&& post.history@.subrange(0, pre.history@.len() as int) == pre.history@
        &&& post.queue@.len() == 6
    }
    &&& r == spec_new_shape(post.history@[pre.taken()])
}

/// Along a chain of pops, the count of pieces taken advances by one
/// per pop.
proof fn lemma_chain_taken(gens: Seq<TetrominoGenerator>, pieces: Seq<Tetromino>, a: int)
    requires
        gens.len() == 8,
        pieces.len() == 7,
        forall|j: int| #![trigger pieces[j]] 0 <= j < 7 ==> pop_rel(gens[j], gens[j + 1], pieces[j]),
        0 <= a <= 7,
    ensures
        gens[a].taken() == gens[0].taken() + a,
    decreases a,
{
    if a > 0 {
        lemma_chain_taken(gens, pieces, a - 1);
        assert(pop_rel(gens[a - 1], gens[a], pieces[a - 1]));
    }
}

/// Along a chain of pops, histories only grow, keeping every earlier
/// entry in place.
proof fn lemma_chain_prefix(gens: Seq<TetrominoGenerator>, pieces: Seq<Tetromino>, a: int, b: int)
    requires
        gens.len() == 8,
        pieces.len() == 7,
        forall|j: int| #![trigger pieces[j]] 0 <= j < 7 ==> pop_rel(gens[j], gens[j + 1], pieces[j]),
        0 <= a <= b <= 7,
    ensures
        gens[b].history@.len() >= gens[a].history@.len(),
        gens[b].history@.subrange(0, gens[a].history@.len() as int) == gens[a].history@,
    decreases b - a,
{
    let la = gens[a].history@.len() as int;
    if a == b {
        assert(gens[a].history@.subrange(0, la) =~= gens[a].history@);
    } else {
        lemma_chain_prefix(gens, pieces, a, b - 1);
        assert(pop_rel(gens[b - 1], gens[b], pieces[b - 1]));
        let lb1 = gens[b - 1].history@.len() as int;
        assert forall|j: int| 0 <= j < la implies gens[b].history@[j] == gens[a].history@[j] by {
            assert(gens[b - 1].history@.subrange(0, la)[j] == gens[b - 1].history@[j]);
            if gens[b - 1].queue@.len() == 0 {
                assert(gens[b].history@.subrange(0, lb1)[j] == gens[b].history@[j]);
            }
        }
        assert(gens[b].history@.subrange(0, la) =~= gens[a].history@);
    }
}

/// Bag fairness: starting at a bag boundary, seven consecutive pops
/// return each of the seven shapes exactly once.
pub proof fn lemma_bag_fairness(gens: Seq<TetrominoGenerator>, pieces: Seq<Tetromino>)
    requires
        gens.len() == 8,
        pieces.len() == 7,
        gens[0].inv(),
        gens[0].taken() % 7 == 0,
        forall|j: int| #![trigger pieces[j]] 0 <= j < 7 ==> pop_rel(gens[j], gens[j + 1], pieces[j]),
    ensures
        pieces.map_values(|t: Tetromino| t.shape).to_multiset() == bag_multiset(),
        gens[7].taken() % 7 == 0,
{
    let t0 = gens[0].taken();
    let h = gens[7].history@;
    assert(t0 >= 0);
    lemma_chain_taken(gens, pieces, 7);
    assert(pop_rel(gens[6], gens[6int + 1], pieces[6]));
    assert(gens[7].inv());
    assert(gens[7].taken() <= h.len());
    assert(t0 + 7 <= h.len());
    assert forall|j: int| 0 <= j < 7 implies pieces[j].shape == h[t0 + j] by {
        lemma_chain_taken(gens, pieces, j);
        lemma_chain_taken(gens, pieces, j + 1);
        assert(pop_rel(gens[j], gens[j + 1], pieces[j]));
        let lj = gens[j + 1].history@.len() as int;
        assert(gens[j + 1].taken() <= lj);
        lemma_chain_prefix(gens, pieces, j + 1, 7);
        assert(h.subrange(0, lj)[t0 + j] == gens[j + 1].history@[t0 + j]);
    }
    assert(pieces.map_values(|t: Tetromino| t.shape) =~= h.subrange(t0, t0 + 7));
    let k = t0 / 7;
    assert(t0 == 7 * k) by (nonlinear_arith)
        requires
            t0 % 7 == 0,
            t0 >= 0,
            k == t0 / 7,
    ;
    assert(h.subrange(7 * k, 7 * k + 7).to_multiset() == bag_multiset());
}

} // verus!
