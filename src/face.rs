use crate::color::Color;
use crate::turn::TurnType;
use vstd::prelude::*;

verus! {

/// One of the four border strips of a face. A strip is read left to right
/// (top and bottom rows) or top to bottom (left and right columns).
#[derive(Clone, Copy, PartialEq, Eq, Structural, Debug)]
pub enum Triplet {
    Top,
    Right,
    Bottom,
    Left,
}

/// A face of the cube: a 3x3 grid of tiles, `tiles[row][column]`.
///
/// Its view lists the nine tiles row by row, so the tile at row `r` and
/// column `c` sits at `3 * r + c`.
#[derive(Clone, Copy, Debug)]
pub struct Face {
    pub tiles: [[Color; 3]; 3],
}

impl View for Face {
    type V = Seq<Color>;

    closed spec fn view(&self) -> Seq<Color> {
        seq![
            self.tiles[0][0], self.tiles[0][1], self.tiles[0][2],
            self.tiles[1][0], self.tiles[1][1], self.tiles[1][2],
            self.tiles[2][0], self.tiles[2][1], self.tiles[2][2],
        ]
    }
}

/// Nine tiles of one color.
pub open spec fn uniform(c: Color) -> Seq<Color> {
    Seq::new(9, |_k: int| c)
}

/// The place, in a face's view, of the `k`-th tile of strip `e`.
pub open spec fn strip_cell(e: Triplet, k: int) -> int {
    match e {
        Triplet::Top => k,
        Triplet::Right => 3 * k + 2,
        Triplet::Bottom => 6 + k,
        Triplet::Left => 3 * k,
    }
}

/// The three tiles of strip `e` of face `f`, in reading order.
#[verifier::opaque]
pub open spec fn strip(f: Seq<Color>, e: Triplet) -> Seq<Color> {
    seq![f[strip_cell(e, 0)], f[strip_cell(e, 1)], f[strip_cell(e, 2)]]
}

/// Face `f` with strip `e` overwritten by `s`, read in the same order as `strip`.
#[verifier::opaque]
pub open spec fn with_strip(f: Seq<Color>, e: Triplet, s: Seq<Color>) -> Seq<Color> {
    f.update(strip_cell(e, 0), s[0]).update(strip_cell(e, 1), s[1]).update(strip_cell(e, 2), s[2])
}

/// Whether a strip read from edge `src` runs against the reading order of
/// edge `dest` where the two meet, so that it has to be reversed on the way.
pub open spec fn reverses(dest: Triplet, src: Triplet) -> bool {
    match dest {
        Triplet::Top | Triplet::Right => src == Triplet::Left || src == Triplet::Bottom,
        Triplet::Bottom | Triplet::Left => src == Triplet::Right || src == Triplet::Top,
    }
}

/// Strip `s`, read from edge `src`, in the reading order of edge `dest`.
#[verifier::opaque]
pub open spec fn oriented(s: Seq<Color>, dest: Triplet, src: Triplet) -> Seq<Color> {
    if reverses(dest, src) {
        s.reverse()
    } else {
        s
    }
}

/// Face `f` turned in its own plane:
/// clockwise `new[j][2 - i] = old[i][j]`,
/// counter-clockwise `new[2 - j][i] = old[i][j]`,
/// half turn `new[2 - i][2 - j] = old[i][j]`.
#[verifier::opaque]
pub open spec fn rotated(f: Seq<Color>, amount: TurnType) -> Seq<Color> {
    match amount {
        TurnType::Clock => seq![f[6], f[3], f[0], f[7], f[4], f[1], f[8], f[5], f[2]],
        TurnType::Prime => seq![f[2], f[5], f[8], f[1], f[4], f[7], f[0], f[3], f[6]],
        TurnType::Double => seq![f[8], f[7], f[6], f[5], f[4], f[3], f[2], f[1], f[0]],
    }
}

/// Whether a strip read from `src` must be reversed before it is written
/// into `dest`.
pub fn needs_reversal(dest: Triplet, src: Triplet) -> (r: bool)
    ensures
        r == reverses(dest, src),
{
    match dest {
        Triplet::Top | Triplet::Right => matches!(src, Triplet::Left | Triplet::Bottom),
        Triplet::Bottom | Triplet::Left => matches!(src, Triplet::Right | Triplet::Top),
    }
}

impl Face {
    /// Every face has nine tiles.
    pub proof fn lemma_nine_tiles(self)
        ensures
            self@.len() == 9,
    {
    }

    /// A face with every tile of color `color`.
    pub fn new(color: Color) -> (r: Face)
        ensures
            r@ == uniform(color),
    {
        let r = Face { tiles: [[color, color, color], [color, color, color], [color, color, color]] };
        assert(r@ =~= uniform(color));
        r
    }

    /// The tiles of strip `section`, in reading order.
    pub fn get_triplet(&self, section: Triplet) -> (r: [Color; 3])
        ensures
            r@ == strip(self@, section),
    {
        let t = &self.tiles;
        let r = match section {
            Triplet::Top => [t[0][0], t[0][1], t[0][2]],
            Triplet::Right => [t[0][2], t[1][2], t[2][2]],
            Triplet::Bottom => [t[2][0], t[2][1], t[2][2]],
            Triplet::Left => [t[0][0], t[1][0], t[2][0]],
        };
        reveal(strip);
        assert(r@ =~= strip(self@, section));
        r
    }

    /// This face with strip `section` replaced by `cubies`, which were read
    /// from strip `other_section` of a neighbouring face.
    pub fn update_triplet(&self, section: Triplet, other_section: Triplet, cubies: [Color; 3]) -> (r: Face)
        ensures
            r@ == with_strip(self@, section, oriented(cubies@, section, other_section)),
    {
        let p = if needs_reversal(section, other_section) {
            [cubies[2], cubies[1], cubies[0]]
        } else {
            cubies
        };
        reveal(oriented);
        assert(p@ =~= oriented(cubies@, section, other_section));
        let t = &self.tiles;
        let tiles = match section {
            Triplet::Top => [p, t[1], t[2]],
            Triplet::Right => [
                [t[0][0], t[0][1], p[0]],
                [t[1][0], t[1][1], p[1]],
                [t[2][0], t[2][1], p[2]],
            ],
            Triplet::Bottom => [t[0], t[1], p],
            Triplet::Left => [
                [p[0], t[0][1], t[0][2]],
                [p[1], t[1][1], t[1][2]],
                [p[2], t[2][1], t[2][2]],
            ],
        };
        let r = Face { tiles };
        reveal(with_strip);
        assert(r@ =~= with_strip(self@, section, p@));
        r
    }

    /// This face turned in its own plane by `turn_type`.
    pub fn rotate(&self, turn_type: TurnType) -> (r: Face)
        ensures
            r@ == rotated(self@, turn_type),
    {
        let t = &self.tiles;
        let tiles = match turn_type {
            TurnType::Clock => [
                [t[2][0], t[1][0], t[0][0]],
                [t[2][1], t[1][1], t[0][1]],
                [t[2][2], t[1][2], t[0][2]],
            ],
            TurnType::Prime => [
                [t[0][2], t[1][2], t[2][2]],
                [t[0][1], t[1][1], t[2][1]],
                [t[0][0], t[1][0], t[2][0]],
            ],
            TurnType::Double => [
                [t[2][2], t[2][1], t[2][0]],
                [t[1][2], t[1][1], t[1][0]],
                [t[0][2], t[0][1], t[0][0]],
            ],
        };
        let r = Face { tiles };
        reveal(rotated);
        assert(r@ =~= rotated(self@, turn_type));
        r
    }
}

} // verus!
