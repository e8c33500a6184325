//! A 3x3x3 twisty-cube model: six faces of colored tiles, the eighteen face
//! turns, and a scramble generator.

mod color;
mod cube;
mod face;
mod laws;
mod scrambler;
mod turn;

pub use color::Color;
pub use cube::{all_tiles, opposite, ring, side_after, solved, source_slot, turned, Cube};
pub use face::{needs_reversal, oriented, reverses, rotated, strip, strip_cell, uniform, with_strip, Face, Triplet};
pub use laws::{
    lemma_clockwise_then_prime, lemma_cube_shape, lemma_double_is_twice, lemma_four_turns,
    lemma_opposite_face_kept, lemma_tiles_conserved, lemma_turn_then_inverse, well_shaped,
};
pub use scrambler::{
    generate_random_turns, lemma_scramble_faces, next_turn, random_turn, scramble_from, scramble_of,
    turn_avoiding,
};
pub use turn::{Turn, TurnType};
