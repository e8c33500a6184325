use crate::color::Color;
use crate::face::{oriented, rotated, strip, uniform, with_strip, Face, Triplet};
use crate::laws::lemma_tiles_conserved;
use crate::turn::{Turn, TurnType};
use vstd::prelude::*;

verus! {

/// A cube: its six faces, named by their solved colors, and the turns
/// applied to it so far.
///
/// Seen from the front (green), white is up, yellow down, red right,
/// orange left and blue at the back. Each face is laid out as it appears
/// on the unfolded net: the four side faces with white above them, white
/// with its bottom row next to green, yellow with its top row next to green.
pub struct Cube {
    pub moves: Vec<Turn>,
    pub green: Face,
    pub red: Face,
    pub blue: Face,
    pub orange: Face,
    pub white: Face,
    pub yellow: Face,
}

/// The cube's faces in the order green, red, blue, orange, white, yellow.
impl View for Cube {
    type V = Seq<Seq<Color>>;

    open spec fn view(&self) -> Seq<Seq<Color>> {
        seq![self.green@, self.red@, self.blue@, self.orange@, self.white@, self.yellow@]
    }
}

/// The faces of a solved cube: each of one color, all six colors used.
pub open spec fn solved() -> Seq<Seq<Color>> {
    seq![
        uniform(Color::Green), uniform(Color::Red), uniform(Color::Blue),
        uniform(Color::Orange), uniform(Color::White), uniform(Color::Yellow),
    ]
}

/// All 54 tiles, face after face.
pub open spec fn all_tiles(faces: Seq<Seq<Color>>) -> Seq<Color> {
    faces[0] + faces[1] + faces[2] + faces[3] + faces[4] + faces[5]
}

impl Cube {
    /// Nine tiles of each color, as on a solved cube. A cube made by `new`
    /// and turned by `mv` always has them.
    pub open spec fn has_solved_tiles(&self) -> bool {
        all_tiles(self@).to_multiset() == all_tiles(solved()).to_multiset()
    }
}

/// The face across the cube from face `f`.
pub open spec fn opposite(f: int) -> int {
    if f == 0 {
        2
    } else if f == 1 {
        3
    } else if f == 2 {
        0
    } else if f == 3 {
        1
    } else if f == 4 {
        5
    } else {
        4
    }
}

/// The four side faces around face `axis`, each with its strip that borders
/// `axis`, in the order in which a clockwise turn of `axis` carries the
/// strips along: slot `i` receives the strip of slot `i - 1`.
pub open spec fn ring(axis: int) -> Seq<(int, Triplet)> {
    if axis == 4 {
        seq![(0, Triplet::Top), (3, Triplet::Top), (2, Triplet::Top), (1, Triplet::Top)]
    } else if axis == 5 {
        seq![(0, Triplet::Bottom), (1, Triplet::Bottom), (2, Triplet::Bottom), (3, Triplet::Bottom)]
    } else if axis == 1 {
        seq![(0, Triplet::Right), (4, Triplet::Right), (2, Triplet::Left), (5, Triplet::Right)]
    } else if axis == 3 {
        seq![(0, Triplet::Left), (5, Triplet::Left), (2, Triplet::Right), (4, Triplet::Left)]
    } else if axis == 0 {
        seq![(4, Triplet::Bottom), (1, Triplet::Left), (5, Triplet::Top), (3, Triplet::Right)]
    } else {
        seq![(4, Triplet::Top), (3, Triplet::Left), (5, Triplet::Bottom), (1, Triplet::Right)]
    }
}

/// The ring slot whose strip moves into slot `i`.
pub open spec fn source_slot(amount: TurnType, i: int) -> int {
    match amount {
        TurnType::Clock => (i + 3) % 4,
        TurnType::Prime => (i + 1) % 4,
        TurnType::Double => (i + 2) % 4,
    }
}

/// The face in ring slot `i` of `axis` after the turn: its bordering strip
/// is the one of the source slot, reversed where the two edges read in
/// opposite directions.
#[verifier::opaque]
pub open spec fn side_after(faces: Seq<Seq<Color>>, axis: int, amount: TurnType, i: int) -> Seq<Color> {
    let (f, e) = ring(axis)[i];
    let (g, d) = ring(axis)[source_slot(amount, i)];
    with_strip(faces[f], e, oriented(strip(faces[g], d), e, d))
}

/// The faces after turn `t`: the four ring faces take their new strips,
/// the turned face rotates in its plane, and the opposite face stays.
#[verifier::opaque]
pub open spec fn turned(faces: Seq<Seq<Color>>, t: Turn) -> Seq<Seq<Color>> {
    let axis = t.axis();
    let amount = t.amount();
    let ring = ring(axis);
    faces.update(ring[0].0, side_after(faces, axis, amount, 0))
        .update(ring[1].0, side_after(faces, axis, amount, 1))
        .update(ring[2].0, side_after(faces, axis, amount, 2))
        .update(ring[3].0, side_after(faces, axis, amount, 3))
        .update(axis, rotated(faces[axis], amount))
}

/// The ring of face `axis`, as `ring` gives it.
fn ring_of(axis: usize) -> (r: ([usize; 4], [Triplet; 4]))
    requires
        axis < 6,
    ensures
        forall|i: int| 0 <= i < 4 ==> (r.0[i] as int, r.1[i]) == #[trigger] ring(axis as int)[i],
        forall|i: int| 0 <= i < 4 ==> #[trigger] r.0[i] < 6,
{
    let r = match axis {
        4 => ([0, 3, 2, 1], [Triplet::Top, Triplet::Top, Triplet::Top, Triplet::Top]),
        5 => ([0, 1, 2, 3], [Triplet::Bottom, Triplet::Bottom, Triplet::Bottom, Triplet::Bottom]),
        1 => ([0, 4, 2, 5], [Triplet::Right, Triplet::Right, Triplet::Left, Triplet::Right]),
        3 => ([0, 5, 2, 4], [Triplet::Left, Triplet::Left, Triplet::Right, Triplet::Left]),
        0 => ([4, 1, 5, 3], [Triplet::Bottom, Triplet::Left, Triplet::Top, Triplet::Right]),
        _ => ([4, 3, 5, 1], [Triplet::Top, Triplet::Left, Triplet::Bottom, Triplet::Right]),
    };
    r
}

/// The ring slot whose strip moves into slot `i`, as `source_slot` gives it.
fn source_index(turn_type: TurnType, i: usize) -> (r: usize)
    requires
        i < 4,
    ensures
        r == source_slot(turn_type, i as int),
{
    match turn_type {
        TurnType::Clock => (i + 3) % 4,
        TurnType::Prime => (i + 1) % 4,
        TurnType::Double => (i + 2) % 4,
    }
}

impl Cube {
    /// A solved cube with no turns made.
    pub fn new() -> (r: Cube)
        ensures
            r@ == solved(),
            r.has_solved_tiles(),
            r.moves@ == Seq::<Turn>::empty(),
    {
        let r = Cube {
            moves: Vec::new(),
            green: Face::new(Color::Green),
            red: Face::new(Color::Red),
            blue: Face::new(Color::Blue),
            orange: Face::new(Color::Orange),
            white: Face::new(Color::White),
            yellow: Face::new(Color::Yellow),
        };
        assert(r@ =~= solved());
        r
    }

    /// The faces in the order of the view.
    fn faces(&self) -> (r: [Face; 6])
        ensures
            forall|f: int| 0 <= f < 6 ==> #[trigger] r[f]@ == self@[f],
    {
        [self.green, self.red, self.blue, self.orange, self.white, self.yellow]
    }

    /// Moves the four ring strips: slot `i` of the result is `to_update[i]`
    /// with its strip `update_sections[i]` taken from the source slot.
    fn looped_update(to_update: [Face; 4], update_sections: [Triplet; 4], turn_type: TurnType) -> (r: [Face; 4])
        ensures
            forall|i: int| 0 <= i < 4 ==> {
                let j = source_slot(turn_type, i);
                #[trigger] r[i]@ == with_strip(
                    to_update[i]@,
                    update_sections[i],
                    oriented(strip(to_update[j]@, update_sections[j]), update_sections[i], update_sections[j]),
                )
            },
    {
        let mut updated = to_update;
        let mut i: usize = 0;
        while i < 4
            invariant
                0 <= i <= 4,
                forall|k: int| 0 <= k < i ==> {
                    let j = source_slot(turn_type, k);
                    #[trigger] updated[k]@ == with_strip(
                        to_update[k]@,
                        update_sections[k],
                        oriented(strip(to_update[j]@, update_sections[j]), update_sections[k], update_sections[j]),
                    )
                },
            decreases 4 - i,
        {
            let j = source_index(turn_type, i);
            let cubies = to_update[j].get_triplet(update_sections[j]);
            updated[i] = to_update[i].update_triplet(update_sections[i], update_sections[j], cubies);
            i += 1;
        }
        updated
    }

    /// The cube after turn `turn`, with `turn` appended to the history.
    /// The turn moves tiles about and never creates or destroys one.
    pub fn mv(&self, turn: Turn) -> (r: Cube)
        ensures
            r@ == turned(self@, turn),
            r.moves@ == self.moves@.push(turn),
            all_tiles(r@).to_multiset() == all_tiles(self@).to_multiset(),
            self.has_solved_tiles() ==> r.has_solved_tiles(),
    {
        let axis = turn.face_index();
        let turn_type = turn.turn_type();
        let (sides, sections) = ring_of(axis);
        let faces = self.faces();
        let to_update = [faces[sides[0]], faces[sides[1]], faces[sides[2]], faces[sides[3]]];
        let updated = Cube::looped_update(to_update, sections, turn_type);
        proof {
            let rg = ring(axis as int);
            assert forall|i: int| 0 <= i < 4 implies #[trigger] updated[i]@ == side_after(
                self@,
                axis as int,
                turn_type,
                i,
            ) by {
                reveal(side_after);
                let j = source_slot(turn_type, i);
                assert(rg[i] == (sides[i] as int, sections[i]));
                assert(rg[j] == (sides[j] as int, sections[j]));
            }
        }
        let mut next = faces;
        let ghost mut views = self@;
        next[sides[0]] = updated[0];
        proof {
            views = views.update(sides[0] as int, updated[0]@);
            assert(forall|f: int| 0 <= f < 6 ==> #[trigger] next[f]@ == views[f]);
        }
        next[sides[1]] = updated[1];
        proof {
            views = views.update(sides[1] as int, updated[1]@);
            assert(forall|f: int| 0 <= f < 6 ==> #[trigger] next[f]@ == views[f]);
        }
        next[sides[2]] = updated[2];
        proof {
            views = views.update(sides[2] as int, updated[2]@);
            assert(forall|f: int| 0 <= f < 6 ==> #[trigger] next[f]@ == views[f]);
        }
        next[sides[3]] = updated[3];
        proof {
            views = views.update(sides[3] as int, updated[3]@);
            assert(forall|f: int| 0 <= f < 6 ==> #[trigger] next[f]@ == views[f]);
        }
        let rotated_face = faces[axis].rotate(turn_type);
        next[axis] = rotated_face;
        proof {
            views = views.update(axis as int, rotated_face@);
            assert(forall|f: int| 0 <= f < 6 ==> #[trigger] next[f]@ == views[f]);
            let rg = ring(axis as int);
            assert(rg[0].0 == sides[0] && rg[1].0 == sides[1] && rg[2].0 == sides[2] && rg[3].0 == sides[3]);
            reveal(turned);
            assert(views == turned(self@, turn));
        }
        let r = Cube {
            moves: self.history_with(turn),
            green: next[0],
            red: next[1],
            blue: next[2],
            orange: next[3],
            white: next[4],
            yellow: next[5],
        };
        assert(r@ =~= views);
        proof {
            lemma_tiles_conserved(self, turn);
        }
        r
    }

    /// The history with `turn` appended.
    fn history_with(&self, turn: Turn) -> (r: Vec<Turn>)
        ensures
            r@ == self.moves@.push(turn),
    {
        let mut moves = self.moves.clone();
        assert(moves@ =~= self.moves@);
        moves.push(turn);
        moves
    }
}

} // verus!
