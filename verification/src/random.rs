//! The random source, which comes from the `rand` crate.
//!
//! Nothing in this file is proved: the contracts say what `rand` documents.

use vstd::prelude::*;
use rand::rngs::StdRng;
use rand::seq::SliceRandom;

verus! {

/// `rand::rngs::StdRng`, the generator that breaks ties. Its state is opaque
/// to the proofs.
#[verifier::external_type_specification]
#[verifier::external_body]
pub struct ExStdRng(rand::rngs::StdRng);

/// Calls `rand::seq::SliceRandom::choose` on `moves`.
///
/// Believed, not proved: the call gives `None` for an empty list, and for any
/// other list one of its entries. Which entry it is depends on the state of
/// `rng`, of which nothing is claimed.
#[verifier::external_body]
pub(crate) fn choose_move(moves: &Vec<&'static str>, rng: &mut StdRng) -> (choice: Option<
    &'static str,
>)
    ensures
        moves@.len() == 0 ==> choice is None,
        moves@.len() > 0 ==> choice is Some && moves@.contains(choice->0),
{
    moves.choose(rng).copied()
}

} // verus!
