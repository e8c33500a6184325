use crate::turn::Turn;
use vstd::prelude::*;

verus! {

/// Relies on rand's `Rng::gen_range` over the thread-local generator that
/// `rand::thread_rng` returns: a value drawn from `0..n`. The call panics on
/// an empty range, hence `n > 0`.
#[verifier::external_body]
fn random_below(n: u32) -> (r: u32)
    requires
        n > 0,
    ensures
        r < n,
{
    rand::Rng::gen_range(&mut rand::thread_rng(), 0..n)
}

/// The turn that draw `r` (from `0..15`) picks among the fifteen turns of
/// the five faces other than the face of `prev`: amount `r / 5`, and the
/// `r % 5`-th of those faces in the order U, D, R, L, F, B.
pub open spec fn turn_avoiding(prev: Turn, r: int) -> Turn {
    let k = r % 5;
    let face = if k < prev.face_code() {
        k
    } else {
        k + 1
    };
    Turn::numbered(face + 6 * (r / 5))
}

/// The turn that draw `r` picks among the turns of the other five faces
/// than that of `prev`. A draw uniform on `0..15` gives a turn uniform
/// among those fifteen.
pub fn next_turn(prev: Turn, r: u32) -> (t: Turn)
    requires
        r < 15,
    ensures
        t == turn_avoiding(prev, r as int),
        t.face_code() != prev.face_code(),
{
    let k = r % 5;
    let face = if k < prev.face_number() {
        k
    } else {
        k + 1
    };
    Turn::from_index(face + 6 * (r / 5))
}

/// The scramble that the draws give after `first`: each turn is picked by
/// its draw among the turns of the faces other than the one turned before.
pub open spec fn scramble_of(first: Turn, draws: Seq<u32>) -> Seq<Turn>
    decreases draws.len(),
{
    if draws.len() == 0 {
        Seq::empty()
    } else {
        let before = scramble_of(first, draws.drop_last());
        let prev = if before.len() == 0 {
            first
        } else {
            before.last()
        };
        before.push(turn_avoiding(prev, draws.last() as int))
    }
}

/// The scramble that `draws`, each below 15, give after the turn `first`.
pub fn scramble_from(first: Turn, draws: &Vec<u32>) -> (turns: Vec<Turn>)
    requires
        forall|i: int| 0 <= i < draws@.len() ==> #[trigger] draws@[i] < 15,
    ensures
        turns@ == scramble_of(first, draws@),
{
    let mut turns: Vec<Turn> = Vec::new();
    let mut prev = first;
    let mut i: usize = 0;
    while i < draws.len()
        invariant
            i <= draws@.len(),
            forall|k: int| 0 <= k < draws@.len() ==> #[trigger] draws@[k] < 15,
            turns@ == scramble_of(first, draws@.subrange(0, i as int)),
            prev == if i == 0 {
                first
            } else {
                turns@.last()
            },
        decreases draws@.len() - i,
    {
        let t = next_turn(prev, draws[i]);
        proof {
            let next = draws@.subrange(0, i as int + 1);
            assert(next.drop_last() =~= draws@.subrange(0, i as int));
            assert(scramble_of(first, next.drop_last()).len() == i) by {
                lemma_scramble_len(first, next.drop_last());
            }
        }
        turns.push(t);
        prev = t;
        i += 1;
    }
    assert(draws@.subrange(0, draws@.len() as int) =~= draws@);
    turns
}

/// A scramble has one turn per draw.
proof fn lemma_scramble_len(first: Turn, draws: Seq<u32>)
    ensures
        scramble_of(first, draws).len() == draws.len(),
    decreases draws.len(),
{
    if draws.len() > 0 {
        lemma_scramble_len(first, draws.drop_last());
    }
}

/// No two turns in a row of a scramble turn the same face, and its first
/// turn does not turn the face of `first`.
pub proof fn lemma_scramble_faces(first: Turn, draws: Seq<u32>)
    requires
        forall|i: int| 0 <= i < draws.len() ==> #[trigger] draws[i] < 15,
    ensures
        scramble_of(first, draws).len() == draws.len(),
        draws.len() > 0 ==> scramble_of(first, draws)[0].face_code() != first.face_code(),
        forall|i: int|
            0 < i < draws.len() ==> #[trigger] scramble_of(first, draws)[i].face_code() != scramble_of(
                first,
                draws,
            )[i - 1].face_code(),
    decreases draws.len(),
{
    lemma_scramble_len(first, draws);
    if draws.len() > 0 {
        let before = draws.drop_last();
        lemma_scramble_faces(first, before);
        lemma_turn_avoiding(
            if before.len() == 0 { first } else { scramble_of(first, before).last() },
            draws.last() as int,
        );
    }
}

/// The turn a draw picks never turns the face of the previous turn.
proof fn lemma_turn_avoiding(prev: Turn, r: int)
    requires
        0 <= r < 15,
    ensures
        turn_avoiding(prev, r).face_code() != prev.face_code(),
{
}

/// A turn drawn uniformly from the eighteen.
pub fn random_turn() -> (t: Turn)
    ensures
        0 <= t.index() < 18,
{
    Turn::from_index(random_below(18))
}

/// A scramble of `n_turns` turns, drawn at random, in which no two turns in
/// a row turn the same face.
pub fn generate_random_turns(n_turns: u32) -> (turns: Vec<Turn>)
    ensures
        turns@.len() == n_turns,
        forall|i: int| 0 < i < n_turns ==> #[trigger] turns@[i].face_code() != turns@[i - 1].face_code(),
{
    let first = random_turn();
    let mut draws: Vec<u32> = Vec::new();
    let mut i: u32 = 0;
    while i < n_turns
        invariant
            i <= n_turns,
            draws@.len() == i,
            forall|k: int| 0 <= k < draws@.len() ==> #[trigger] draws@[k] < 15,
        decreases n_turns - i,
    {
        draws.push(random_below(15));
        i += 1;
    }
    let turns = scramble_from(first, &draws);
    proof {
        lemma_scramble_faces(first, draws@);
    }
    turns
}

} // verus!
