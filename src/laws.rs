use crate::color::Color;
use crate::cube::{all_tiles, opposite, ring, side_after, source_slot, turned, Cube};
use crate::face::{oriented, reverses, rotated, strip, with_strip, Triplet};
use crate::turn::{Turn, TurnType};
use vstd::multiset::Multiset;
use vstd::prelude::*;

verus! {

/// Six faces of nine tiles each, as the view of every cube is.
pub open spec fn well_shaped(s: Seq<Seq<Color>>) -> bool {
    &&& s.len() == 6
    &&& forall|f: int| 0 <= f < 6 ==> #[trigger] s[f].len() == 9
}

/// The view of a cube is well shaped.
pub proof fn lemma_cube_shape(c: &Cube)
    ensures
        well_shaped(c@),
{
    c.green.lemma_nine_tiles();
    c.red.lemma_nine_tiles();
    c.blue.lemma_nine_tiles();
    c.orange.lemma_nine_tiles();
    c.white.lemma_nine_tiles();
    c.yellow.lemma_nine_tiles();
}

/// The ring of a face lists four distinct faces, none of them the face
/// itself or its opposite; every other face is in it.
proof fn lemma_ring(axis: int)
    requires
        0 <= axis < 6,
    ensures
        ring(axis).len() == 4,
        forall|i: int|
            0 <= i < 4 ==> {
                let f = #[trigger] ring(axis)[i].0;
                0 <= f < 6 && f != axis && f != opposite(axis)
            },
        forall|i: int, j: int| 0 <= i < 4 && 0 <= j < 4 && i != j ==> ring(axis)[i].0 != ring(axis)[j].0,
        0 <= opposite(axis) < 6,
        opposite(axis) != axis,
{
}

/// Every face but `axis` and its opposite is in the ring of `axis`.
proof fn lemma_ring_covers(axis: int, f: int)
    requires
        0 <= axis < 6,
        0 <= f < 6,
        f != axis,
        f != opposite(axis),
    ensures
        ring(axis)[0].0 == f || ring(axis)[1].0 == f || ring(axis)[2].0 == f || ring(axis)[3].0 == f,
{
}

proof fn lemma_strip_len(f: Seq<Color>, e: Triplet)
    ensures
        strip(f, e).len() == 3,
{
    reveal(strip);
}

/// Reading back a strip that was just written gives what was written.
proof fn lemma_strip_with_strip(f: Seq<Color>, e: Triplet, x: Seq<Color>)
    requires
        f.len() == 9,
        x.len() == 3,
    ensures
        strip(with_strip(f, e, x), e) == x,
        with_strip(f, e, x).len() == 9,
{
    reveal(strip);
    reveal(with_strip);
    assert(strip(with_strip(f, e, x), e) =~= x);
}

/// Writing a strip twice keeps the second.
proof fn lemma_with_strip_twice(f: Seq<Color>, e: Triplet, x: Seq<Color>, y: Seq<Color>)
    requires
        f.len() == 9,
        x.len() == 3,
        y.len() == 3,
    ensures
        with_strip(with_strip(f, e, x), e, y) == with_strip(f, e, y),
{
    reveal(with_strip);
    assert(with_strip(with_strip(f, e, x), e, y) =~= with_strip(f, e, y));
}

/// Writing back a face's own strip leaves it as it was.
proof fn lemma_with_own_strip(f: Seq<Color>, e: Triplet)
    requires
        f.len() == 9,
    ensures
        with_strip(f, e, strip(f, e)) == f,
{
    reveal(strip);
    reveal(with_strip);
    assert(with_strip(f, e, strip(f, e)) =~= f);
}

/// Orienting a strip from `e` into `d` and back restores it.
proof fn lemma_oriented_back(x: Seq<Color>, d: Triplet, e: Triplet)
    requires
        x.len() == 3,
    ensures
        oriented(x, d, e).len() == 3,
        oriented(oriented(x, d, e), e, d) == x,
{
    reveal(oriented);
    assert(reverses(d, e) == reverses(e, d));
    assert(x.reverse().reverse() =~= x);
}

/// Rotating a face and rotating it back restores it.
proof fn lemma_rotated_inverse(f: Seq<Color>, a: TurnType)
    requires
        f.len() == 9,
    ensures
        rotated(f, a).len() == 9,
        rotated(rotated(f, a), a.inverse()) == f,
{
    reveal(rotated);
    assert(rotated(rotated(f, a), a.inverse()) =~= f);
}

/// What a turn does to each face: the ring faces take their new strips, the
/// turned face rotates, the opposite face stays; the result is well shaped.
proof fn lemma_turned_faces(s: Seq<Seq<Color>>, t: Turn)
    requires
        well_shaped(s),
    ensures
        well_shaped(turned(s, t)),
        turned(s, t)[t.axis()] == rotated(s[t.axis()], t.amount()),
        turned(s, t)[opposite(t.axis())] == s[opposite(t.axis())],
        forall|i: int|
            0 <= i < 4 ==> turned(s, t)[#[trigger] ring(t.axis())[i].0] == side_after(
                s,
                t.axis(),
                t.amount(),
                i,
            ),
{
    let axis = t.axis();
    let a = t.amount();
    let rg = ring(axis);
    lemma_ring(axis);
    reveal(side_after);
    reveal(rotated);
    reveal(turned);
    let r = turned(s, t);
    assert forall|i: int| 0 <= i < 4 implies #[trigger] side_after(s, axis, a, i).len() == 9 by {
        let j = source_slot(a, i);
        assert(0 <= j < 4);
        let (f, e) = rg[i];
        let (g, d) = rg[j];
        lemma_strip_len(s[g], d);
        lemma_oriented_back(strip(s[g], d), e, d);
        lemma_strip_with_strip(s[f], e, oriented(strip(s[g], d), e, d));
    }
    assert(rg[0].0 != rg[1].0 && rg[0].0 != rg[2].0 && rg[0].0 != rg[3].0);
    assert(rg[1].0 != rg[2].0 && rg[1].0 != rg[3].0 && rg[2].0 != rg[3].0);
    assert(r[rg[0].0] == side_after(s, axis, a, 0));
    assert(r[rg[1].0] == side_after(s, axis, a, 1));
    assert(r[rg[2].0] == side_after(s, axis, a, 2));
    assert(r[rg[3].0] == side_after(s, axis, a, 3));
    assert forall|f: int| 0 <= f < 6 implies #[trigger] r[f].len() == 9 by {
        if f != axis && f != opposite(axis) {
            lemma_ring_covers(axis, f);
        }
    }
}

/// A ring slot turned one way and back holds its old face again.
#[verifier::rlimit(40)]
proof fn lemma_slot_restored(s: Seq<Seq<Color>>, s1: Seq<Seq<Color>>, axis: int, a: TurnType, i: int)
    requires
        well_shaped(s),
        0 <= axis < 6,
        0 <= i < 4,
        forall|k: int| 0 <= k < 4 ==> s1[#[trigger] ring(axis)[k].0] == side_after(s, axis, a, k),
    ensures
        side_after(s1, axis, a.inverse(), i) == s[ring(axis)[i].0],
{
    reveal(side_after);
    lemma_ring(axis);
    let rg = ring(axis);
    let j = source_slot(a, i);
    let k = source_slot(a.inverse(), i);
    assert(0 <= k < 4 && source_slot(a, k) == i);
    assert(0 <= j < 4);
    let (fi, ei) = rg[i];
    let (fj, ej) = rg[j];
    let (fk, ek) = rg[k];
    let xi = oriented(strip(s[fj], ej), ei, ej);
    lemma_strip_len(s[fj], ej);
    lemma_oriented_back(strip(s[fj], ej), ei, ej);
    let xk = oriented(strip(s[fi], ei), ek, ei);
    lemma_strip_len(s[fi], ei);
    lemma_oriented_back(strip(s[fi], ei), ek, ei);
    assert(s1[fk] == with_strip(s[fk], ek, xk));
    assert(s1[fi] == with_strip(s[fi], ei, xi));
    lemma_strip_with_strip(s[fk], ek, xk);
    lemma_with_strip_twice(s[fi], ei, xi, strip(s[fi], ei));
    lemma_with_own_strip(s[fi], ei);
}

/// A turn followed by its inverse restores every tile.
proof fn lemma_inverse_model(s: Seq<Seq<Color>>, t: Turn)
    requires
        well_shaped(s),
    ensures
        turned(turned(s, t), t.inverse()) == s,
{
    let axis = t.axis();
    let a = t.amount();
    let t2 = t.inverse();
    assert(t2.axis() == axis && t2.amount() == a.inverse());
    let s1 = turned(s, t);
    let s2 = turned(s1, t2);
    let rg = ring(axis);
    lemma_ring(axis);
    lemma_turned_faces(s, t);
    lemma_turned_faces(s1, t2);
    lemma_rotated_inverse(s[axis], a);
    assert forall|i: int| 0 <= i < 4 implies s2[#[trigger] rg[i].0] == s[rg[i].0] by {
        lemma_slot_restored(s, s1, axis, a, i);
    }
    assert forall|f: int| 0 <= f < 6 implies #[trigger] s2[f] == s[f] by {
        if f != axis && f != opposite(axis) {
            lemma_ring_covers(axis, f);
            assert(s2[rg[0].0] == s[rg[0].0] && s2[rg[1].0] == s[rg[1].0]);
            assert(s2[rg[2].0] == s[rg[2].0] && s2[rg[3].0] == s[rg[3].0]);
        }
    }
    assert(s2 =~= s);
}

/// Rotating a face clockwise twice is the half turn.
proof fn lemma_rotated_twice(f: Seq<Color>)
    requires
        f.len() == 9,
    ensures
        rotated(rotated(f, TurnType::Clock), TurnType::Clock) == rotated(f, TurnType::Double),
{
    reveal(rotated);
    assert(rotated(rotated(f, TurnType::Clock), TurnType::Clock) =~= rotated(f, TurnType::Double));
}

/// Orienting a strip from `e` into `m`, then from `m` into `d`, is orienting
/// it from `e` into `d` where the reversals add up.
proof fn lemma_oriented_compose(x: Seq<Color>, d: Triplet, m: Triplet, e: Triplet)
    requires
        x.len() == 3,
        (reverses(d, m) != reverses(m, e)) == reverses(d, e),
    ensures
        oriented(oriented(x, m, e), d, m) == oriented(x, d, e),
{
    reveal(oriented);
    assert(x.reverse().reverse() =~= x);
}

/// Around every ring, the reversal from two slots back is the sum of the
/// reversals of the two steps between.
proof fn lemma_ring_reversals(axis: int, i: int)
    requires
        0 <= axis < 6,
        0 <= i < 4,
    ensures
        ({
            let e0 = ring(axis)[i].1;
            let e1 = ring(axis)[(i + 3) % 4].1;
            let e2 = ring(axis)[(i + 2) % 4].1;
            (reverses(e0, e1) != reverses(e1, e2)) == reverses(e0, e2)
        }),
{
}

/// A ring slot after two clockwise turns holds what a half turn puts there.
proof fn lemma_slot_twice(s: Seq<Seq<Color>>, s1: Seq<Seq<Color>>, axis: int, i: int)
    requires
        well_shaped(s),
        0 <= axis < 6,
        0 <= i < 4,
        forall|k: int| 0 <= k < 4 ==> s1[#[trigger] ring(axis)[k].0] == side_after(s, axis, TurnType::Clock, k),
    ensures
        side_after(s1, axis, TurnType::Clock, i) == side_after(s, axis, TurnType::Double, i),
{
    reveal(side_after);
    lemma_ring(axis);
    lemma_ring_reversals(axis, i);
    let rg = ring(axis);
    let j = (i + 3) % 4;
    let k = (i + 2) % 4;
    assert(source_slot(TurnType::Clock, i) == j);
    assert(source_slot(TurnType::Clock, j) == k);
    assert(source_slot(TurnType::Double, i) == k);
    let (fi, ei) = rg[i];
    let (fj, ej) = rg[j];
    let (fk, ek) = rg[k];
    let xi = oriented(strip(s[fj], ej), ei, ej);
    lemma_strip_len(s[fj], ej);
    lemma_oriented_back(strip(s[fj], ej), ei, ej);
    let xj = oriented(strip(s[fk], ek), ej, ek);
    lemma_strip_len(s[fk], ek);
    lemma_oriented_back(strip(s[fk], ek), ej, ek);
    lemma_oriented_back(xj, ei, ej);
    lemma_oriented_back(strip(s[fk], ek), ei, ek);
    assert(s1[fj] == with_strip(s[fj], ej, xj));
    assert(s1[fi] == with_strip(s[fi], ei, xi));
    lemma_strip_with_strip(s[fj], ej, xj);
    lemma_oriented_compose(strip(s[fk], ek), ei, ej, ek);
    lemma_with_strip_twice(s[fi], ei, xi, oriented(xj, ei, ej));
}

proof fn lemma_double_model(s: Seq<Seq<Color>>, t: Turn)
    requires
        well_shaped(s),
    ensures
        turned(s, t.with_amount(TurnType::Double)) == turned(
            turned(s, t.with_amount(TurnType::Clock)),
            t.with_amount(TurnType::Clock),
        ),
{
    let cw = t.with_amount(TurnType::Clock);
    let half = t.with_amount(TurnType::Double);
    let axis = t.axis();
    assert(cw.axis() == axis && half.axis() == axis);
    assert(cw.amount() == TurnType::Clock && half.amount() == TurnType::Double);
    let s1 = turned(s, cw);
    let s2 = turned(s1, cw);
    let h = turned(s, half);
    let rg = ring(axis);
    lemma_ring(axis);
    lemma_turned_faces(s, cw);
    lemma_turned_faces(s1, cw);
    lemma_turned_faces(s, half);
    lemma_rotated_twice(s[axis]);
    assert forall|i: int| 0 <= i < 4 implies s2[#[trigger] rg[i].0] == h[rg[i].0] by {
        lemma_slot_twice(s, s1, axis, i);
    }
    assert forall|f: int| 0 <= f < 6 implies #[trigger] s2[f] == h[f] by {
        if f != axis && f != opposite(axis) {
            lemma_ring_covers(axis, f);
            assert(s2[rg[0].0] == h[rg[0].0] && s2[rg[1].0] == h[rg[1].0]);
            assert(s2[rg[2].0] == h[rg[2].0] && s2[rg[3].0] == h[rg[3].0]);
        }
    }
    assert(s2 =~= h);
}

/// One if tile `c` has color `x`, else zero.
spec fn hit(c: Color, x: Color) -> int {
    if c == x {
        1
    } else {
        0
    }
}

/// How often each color occurs on a nine-tile face, tile by tile.
proof fn lemma_count_nine(f: Seq<Color>)
    requires
        f.len() == 9,
    ensures
        forall|x: Color|
            #[trigger] f.to_multiset().count(x) == hit(f[0], x) + hit(f[1], x) + hit(f[2], x) + hit(f[3], x)
                + hit(f[4], x) + hit(f[5], x) + hit(f[6], x) + hit(f[7], x) + hit(f[8], x),
{
    broadcast use vstd::seq_lib::group_to_multiset_ensures, vstd::multiset::group_multiset_axioms;

    let e = Seq::<Color>::empty();
    assert(e.to_multiset() =~= Multiset::empty());
    assert(f =~= e.push(f[0]).push(f[1]).push(f[2]).push(f[3]).push(f[4]).push(f[5]).push(f[6]).push(
        f[7],
    ).push(f[8]));
}

/// How often each color occurs in a three-tile strip, tile by tile.
proof fn lemma_count_three(x: Seq<Color>)
    requires
        x.len() == 3,
    ensures
        forall|c: Color| #[trigger] x.to_multiset().count(c) == hit(x[0], c) + hit(x[1], c) + hit(x[2], c),
{
    broadcast use vstd::seq_lib::group_to_multiset_ensures, vstd::multiset::group_multiset_axioms;

    let e = Seq::<Color>::empty();
    assert(e.to_multiset() =~= Multiset::empty());
    assert(x =~= e.push(x[0]).push(x[1]).push(x[2]));
}

/// Rotating a face keeps its tiles.
proof fn lemma_rotated_multiset(f: Seq<Color>, a: TurnType)
    requires
        f.len() == 9,
    ensures
        rotated(f, a).to_multiset() == f.to_multiset(),
{
    reveal(rotated);
    let g = rotated(f, a);
    lemma_count_nine(f);
    lemma_count_nine(g);
    assert forall|x: Color| #[trigger] g.to_multiset().count(x) == f.to_multiset().count(x) by {
        assert(g[0] == f[6] || g[0] == f[2] || g[0] == f[8]);
    }
    assert(g.to_multiset() =~= f.to_multiset());
}

/// Orienting a strip keeps its tiles.
proof fn lemma_oriented_multiset(x: Seq<Color>, d: Triplet, e: Triplet)
    ensures
        oriented(x, d, e).to_multiset() == x.to_multiset(),
{
    reveal(oriented);
    x.lemma_reverse_to_multiset();
}

/// Writing strip `x` over strip `e` trades the old strip's tiles for those of `x`.
proof fn lemma_with_strip_count(f: Seq<Color>, e: Triplet, x: Seq<Color>)
    requires
        f.len() == 9,
        x.len() == 3,
    ensures
        forall|c: Color|
            #[trigger] with_strip(f, e, x).to_multiset().count(c) + strip(f, e).to_multiset().count(c)
                == f.to_multiset().count(c) + x.to_multiset().count(c),
{
    reveal(strip);
    reveal(with_strip);
    let g = with_strip(f, e, x);
    let st = strip(f, e);
    lemma_count_nine(f);
    lemma_count_nine(g);
    lemma_count_three(x);
    lemma_count_three(st);
    assert(g.len() == 9 && st.len() == 3);
    match e {
        Triplet::Top => {
            assert(g[0] == x[0] && g[1] == x[1] && g[2] == x[2]);
            assert(st[0] == f[0] && st[1] == f[1] && st[2] == f[2]);
            assert(g[3] == f[3] && g[4] == f[4] && g[5] == f[5] && g[6] == f[6] && g[7] == f[7] && g[8] == f[8]);
        },
        Triplet::Right => {
            assert(g[2] == x[0] && g[5] == x[1] && g[8] == x[2]);
            assert(st[0] == f[2] && st[1] == f[5] && st[2] == f[8]);
            assert(g[0] == f[0] && g[1] == f[1] && g[3] == f[3] && g[4] == f[4] && g[6] == f[6] && g[7] == f[7]);
        },
        Triplet::Bottom => {
            assert(g[6] == x[0] && g[7] == x[1] && g[8] == x[2]);
            assert(st[0] == f[6] && st[1] == f[7] && st[2] == f[8]);
            assert(g[0] == f[0] && g[1] == f[1] && g[2] == f[2] && g[3] == f[3] && g[4] == f[4] && g[5] == f[5]);
        },
        Triplet::Left => {
            assert(g[0] == x[0] && g[3] == x[1] && g[6] == x[2]);
            assert(st[0] == f[0] && st[1] == f[3] && st[2] == f[6]);
            assert(g[1] == f[1] && g[2] == f[2] && g[4] == f[4] && g[5] == f[5] && g[7] == f[7] && g[8] == f[8]);
        },
    }
}

/// The tiles of a cube are those of its faces together.
proof fn lemma_all_tiles_count(s: Seq<Seq<Color>>, x: Color)
    requires
        s.len() == 6,
    ensures
        all_tiles(s).to_multiset().count(x) == s[0].to_multiset().count(x) + s[1].to_multiset().count(x)
            + s[2].to_multiset().count(x) + s[3].to_multiset().count(x) + s[4].to_multiset().count(x)
            + s[5].to_multiset().count(x),
{
    broadcast use vstd::seq_lib::lemma_multiset_commutative, vstd::multiset::group_multiset_axioms;

}

/// A ring slot after a turn: its new face and the strip it gave away hold
/// the tiles of its old face and the strip it received.
proof fn lemma_slot_count(s: Seq<Seq<Color>>, axis: int, a: TurnType, i: int, x: Color)
    requires
        well_shaped(s),
        0 <= axis < 6,
        0 <= i < 4,
    ensures
        side_after(s, axis, a, i).to_multiset().count(x) + strip(s[ring(axis)[i].0], ring(axis)[i].1).to_multiset().count(x)
            == s[ring(axis)[i].0].to_multiset().count(x) + strip(
            s[ring(axis)[source_slot(a, i)].0],
            ring(axis)[source_slot(a, i)].1,
        ).to_multiset().count(x),
{
    reveal(side_after);
    lemma_ring(axis);
    let rg = ring(axis);
    let j = source_slot(a, i);
    assert(0 <= j < 4);
    let (fi, ei) = rg[i];
    let (fj, ej) = rg[j];
    lemma_strip_len(s[fj], ej);
    lemma_oriented_back(strip(s[fj], ej), ei, ej);
    lemma_oriented_multiset(strip(s[fj], ej), ei, ej);
    lemma_with_strip_count(s[fi], ei, oriented(strip(s[fj], ej), ei, ej));
}

/// The source slots of a turn are the four slots in some order.
proof fn lemma_source_slots_sum(a: TurnType, v: spec_fn(int) -> int)
    ensures
        v(source_slot(a, 0)) + v(source_slot(a, 1)) + v(source_slot(a, 2)) + v(source_slot(a, 3)) == v(0)
            + v(1) + v(2) + v(3),
{
    assert(0 <= source_slot(a, 0) < 4);
    match a {
        TurnType::Clock => assert(source_slot(a, 0) == 3 && source_slot(a, 1) == 0 && source_slot(a, 2) == 1 && source_slot(a, 3) == 2),
        TurnType::Prime => assert(source_slot(a, 0) == 1 && source_slot(a, 1) == 2 && source_slot(a, 2) == 3 && source_slot(a, 3) == 0),
        TurnType::Double => assert(source_slot(a, 0) == 2 && source_slot(a, 1) == 3 && source_slot(a, 2) == 0 && source_slot(a, 3) == 1),
    }
}

/// The four ring faces hold, between them, as many tiles of each color
/// after a turn as before.
proof fn lemma_ring_count(s: Seq<Seq<Color>>, t: Turn, x: Color)
    requires
        well_shaped(s),
    ensures
        ({
            let rg = ring(t.axis());
            let r = turned(s, t);
            r[rg[0].0].to_multiset().count(x) + r[rg[1].0].to_multiset().count(x) + r[rg[2].0].to_multiset().count(x)
                + r[rg[3].0].to_multiset().count(x) == s[rg[0].0].to_multiset().count(x)
                + s[rg[1].0].to_multiset().count(x) + s[rg[2].0].to_multiset().count(x)
                + s[rg[3].0].to_multiset().count(x)
        }),
{
    let axis = t.axis();
    let a = t.amount();
    let rg = ring(axis);
    lemma_turned_faces(s, t);
    let st = |i: int| strip(s[rg[i].0], rg[i].1).to_multiset().count(x) as int;
    lemma_slot_count(s, axis, a, 0, x);
    lemma_slot_count(s, axis, a, 1, x);
    lemma_slot_count(s, axis, a, 2, x);
    lemma_slot_count(s, axis, a, 3, x);
    lemma_source_slots_sum(a, st);
}

proof fn lemma_conservation_count(s: Seq<Seq<Color>>, t: Turn, x: Color)
    requires
        well_shaped(s),
    ensures
        all_tiles(turned(s, t)).to_multiset().count(x) == all_tiles(s).to_multiset().count(x),
{
    let axis = t.axis();
    let r = turned(s, t);
    lemma_turned_faces(s, t);
    lemma_rotated_multiset(s[axis], t.amount());
    lemma_all_tiles_count(s, x);
    lemma_all_tiles_count(r, x);
    lemma_ring_count(s, t, x);
    if axis == 0 {
    } else if axis == 1 {
    } else if axis == 2 {
    } else if axis == 3 {
    } else if axis == 4 {
    } else {
    }
}

proof fn lemma_conservation_model(s: Seq<Seq<Color>>, t: Turn)
    requires
        well_shaped(s),
    ensures
        all_tiles(turned(s, t)).to_multiset() == all_tiles(s).to_multiset(),
{
    assert forall|x: Color| #[trigger] all_tiles(turned(s, t)).to_multiset().count(x) == all_tiles(
        s,
    ).to_multiset().count(x) by {
        lemma_conservation_count(s, t, x);
    }
    assert(all_tiles(turned(s, t)).to_multiset() =~= all_tiles(s).to_multiset());
}

/// A turn moves tiles about: the 54 colors of the cube, counted with
/// multiplicity, stay the same.
pub proof fn lemma_tiles_conserved(c: &Cube, t: Turn)
    ensures
        all_tiles(turned(c@, t)).to_multiset() == all_tiles(c@).to_multiset(),
{
    lemma_cube_shape(c);
    lemma_conservation_model(c@, t);
}

/// A turn followed by its inverse restores every tile.
pub proof fn lemma_turn_then_inverse(c: &Cube, t: Turn)
    ensures
        turned(turned(c@, t), t.inverse()) == c@,
{
    lemma_cube_shape(c);
    lemma_inverse_model(c@, t);
}

/// A clockwise quarter turn of a face followed by a counter-clockwise one
/// restores every tile.
pub proof fn lemma_clockwise_then_prime(c: &Cube, t: Turn)
    ensures
        turned(turned(c@, t.with_amount(TurnType::Clock)), t.with_amount(TurnType::Prime)) == c@,
{
    let cw = t.with_amount(TurnType::Clock);
    assert(cw.inverse() == t.with_amount(TurnType::Prime));
    lemma_turn_then_inverse(c, cw);
}

/// A half turn of a face does what two clockwise quarter turns do.
pub proof fn lemma_double_is_twice(c: &Cube, t: Turn)
    ensures
        turned(c@, t.with_amount(TurnType::Double)) == turned(
            turned(c@, t.with_amount(TurnType::Clock)),
            t.with_amount(TurnType::Clock),
        ),
{
    lemma_cube_shape(c);
    lemma_double_model(c@, t);
}

/// Four clockwise quarter turns of the same face restore every tile.
pub proof fn lemma_four_turns(c: &Cube, t: Turn)
    ensures
        ({
            let cw = t.with_amount(TurnType::Clock);
            turned(turned(turned(turned(c@, cw), cw), cw), cw) == c@
        }),
{
    lemma_cube_shape(c);
    let s = c@;
    let cw = t.with_amount(TurnType::Clock);
    let half = t.with_amount(TurnType::Double);
    assert(cw.with_amount(TurnType::Clock) == cw && cw.with_amount(TurnType::Double) == half);
    lemma_double_model(s, cw);
    lemma_turned_faces(s, cw);
    let s2 = turned(turned(s, cw), cw);
    lemma_turned_faces(turned(s, cw), cw);
    lemma_double_model(s2, cw);
    lemma_turned_faces(s, half);
    assert(half.inverse() == half);
    lemma_inverse_model(s, half);
}

/// A turn leaves the face opposite the turned one, centre tile included,
/// exactly as it was.
pub proof fn lemma_opposite_face_kept(c: &Cube, t: Turn)
    ensures
        turned(c@, t)[opposite(t.axis())] == c@[opposite(t.axis())],
        turned(c@, t)[opposite(t.axis())][4] == c@[opposite(t.axis())][4],
{
    lemma_cube_shape(c);
    lemma_turned_faces(c@, t);
}

} // verus!
