//! Arithmetization of the Poseidon2 permutation over the Goldilocks field:
//! a trace generator that records every intermediate round state of the
//! permutation into a column matrix, and a row-local constraint evaluator
//! that certifies each recorded state, for consumption by a STARK prover.

pub mod air;
pub mod field;
pub mod generation;
pub mod generation12;
pub mod instances;
pub mod layout;
pub mod model;
pub mod params;
pub mod poseidon2;
pub mod stark;
pub mod stark12;
pub mod trace;
