//! A verified engine for the logical state of a 3x3x3 twisty puzzle.
//!
//! Two coupled representations of the same physical object are kept in
//! lockstep: a facelet (sticker-colour) model that judges whether the cube
//! is solved, and a piece-position model that records which physical cubie
//! occupies each of the 27 slots.  Both are permuted through one shared
//! four-cycle primitive driven by one adjacency table, so the two models
//! can never drift apart.  A small scheduler tracks the single in-flight
//! turn animation as plain tick counts; all floating-point interpolation
//! is left to the unverified caller.

pub mod cycle;
pub mod table;
pub mod stickers;
pub mod layout;
pub mod cube;
