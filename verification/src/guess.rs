//! A position in parameter space, as the ensemble sampler hands it around.
//!
//! The sampler's `Guess` is kept as it is. Its coordinates are
//! single-precision numbers; the contracts of this crate speak of each
//! coordinate through its bit pattern, an unsigned 32-bit integer.

use vstd::prelude::*;
use emcee::Guess;
use crate::csv::texts;

verus! {

/// The sampler's position type. Nothing inside a value is visible to the
/// verifier; [`guess_bits`] names what it holds.
#[verifier::external_type_specification]
#[verifier::external_body]
pub struct ExGuess(emcee::Guess);

/// The coordinates that a position holds, in order, each as the bit pattern
/// of its single-precision value.
pub uninterp spec fn guess_bits(g: Guess) -> Seq<u32>;

/// The text that the standard library prints for the single-precision number
/// with the given bit pattern.
pub uninterp spec fn decimal_text(bits: u32) -> Seq<char>;

/// Reads the length of the `values` vector of `emcee::Guess`: the number of
/// coordinates of the position.
#[verifier::external_body]
pub(crate) fn guess_len(g: &Guess) -> (n: usize)
    ensures
        n == guess_bits(*g).len(),
{
    g.values.len()
}

/// Calls `to_bits` on the coordinate at `i` of `emcee::Guess::values`: the
/// result is that coordinate's bit pattern.
#[verifier::external_body]
pub(crate) fn guess_value_bits(g: &Guess, i: usize) -> (bits: u32)
    requires
        i < guess_bits(*g).len(),
    ensures
        bits == guess_bits(*g)[i as int],
{
    g.values[i].to_bits()
}

/// Calls `to_string` on the coordinate at `i` of `emcee::Guess::values`: the
/// result is the standard library's text for that number.
#[verifier::external_body]
pub(crate) fn guess_value_text(g: &Guess, i: usize) -> (text: String)
    requires
        i < guess_bits(*g).len(),
    ensures
        text@ == decimal_text(guess_bits(*g)[i as int]),
{
    g.values[i].to_string()
}

/// Calls `emcee::Guess::create_initial_guess`, which returns `count`
/// positions, each a copy of `g` with random noise added to every
/// coordinate. The noise is not specified: only the number of positions and
/// the number of coordinates of each are.
#[verifier::external_body]
pub(crate) fn perturbed_guesses(g: &Guess, count: usize) -> (walkers: Vec<Guess>)
    ensures
        walkers@.len() == count,
        forall|i: int|
            0 <= i < walkers@.len() ==> (#[trigger] guess_bits(walkers@[i])).len() == guess_bits(
                *g,
            ).len(),
{
    g.create_initial_guess(count)
}

/// The text of each coordinate with the given bit pattern, in order.
pub open spec fn decimal_texts(bits: Seq<u32>) -> Seq<Seq<char>> {
    bits.map_values(|b: u32| decimal_text(b))
}

/// The number of coordinates of a position.
pub fn dimension_of(g: &Guess) -> (n: usize)
    ensures
        n == guess_bits(*g).len(),
{
    guess_len(g)
}

/// Prints every coordinate of a position, in order.
pub fn coordinate_texts(g: &Guess) -> (cells: Vec<String>)
    ensures
        texts(cells@) == decimal_texts(guess_bits(*g)),
{
    let n = guess_len(g);
    let mut cells: Vec<String> = Vec::new();
    let mut i: usize = 0;
    while i < n
        invariant
            n == guess_bits(*g).len(),
            i <= n,
            cells@.len() == i,
            forall|j: int| 0 <= j < i ==> (#[trigger] cells@[j])@ == decimal_text(guess_bits(*g)[j]),
        decreases n - i,
    {
        let cell = guess_value_text(g, i);
        cells.push(cell);
        i += 1;
    }
    assert(texts(cells@) =~= decimal_texts(guess_bits(*g)));
    cells
}

/// Whether two positions have the same coordinates, bit for bit.
pub fn same_position(a: &Guess, b: &Guess) -> (same: bool)
    ensures
        same <==> guess_bits(*a) == guess_bits(*b),
{
    let n = guess_len(a);
    if guess_len(b) != n {
        return false;
    }
    let mut i: usize = 0;
    while i < n
        invariant
            n == guess_bits(*a).len(),
            n == guess_bits(*b).len(),
            i <= n,
            forall|j: int| 0 <= j < i ==> guess_bits(*a)[j] == guess_bits(*b)[j],
        decreases n - i,
    {
        if guess_value_bits(a, i) != guess_value_bits(b, i) {
            return false;
        }
        i += 1;
    }
    assert(guess_bits(*a) =~= guess_bits(*b));
    true
}

/// No two of the positions have the same coordinates.
pub open spec fn pairwise_distinct(walkers: Seq<Guess>) -> bool {
    forall|i: int, j: int|
        0 <= i < j < walkers.len() ==> guess_bits(#[trigger] walkers[i]) != guess_bits(
            #[trigger] walkers[j],
        )
}

/// Whether no two of the positions have the same coordinates.
pub fn all_distinct(walkers: &Vec<Guess>) -> (distinct: bool)
    ensures
        distinct <==> pairwise_distinct(walkers@),
{
    let n = walkers.len();
    let mut j: usize = 0;
    while j < n
        invariant
            n == walkers@.len(),
            j <= n,
            forall|a: int, b: int|
                0 <= a < b < j ==> guess_bits(#[trigger] walkers@[a]) != guess_bits(
                    #[trigger] walkers@[b],
                ),
        decreases n - j,
    {
        let mut i: usize = 0;
        while i < j
            invariant
                n == walkers@.len(),
                j < n,
                i <= j,
                forall|a: int|
                    0 <= a < i ==> guess_bits(#[trigger] walkers@[a]) != guess_bits(
                        walkers@[j as int],
                    ),
            decreases j - i,
        {
            if same_position(&walkers[i], &walkers[j]) {
                return false;
            }
            i += 1;
        }
        j += 1;
    }
    true
}

/// Why no starting ensemble could be made.
#[derive(Debug, Clone, Copy, PartialEq, Eq, Structural)]
pub enum InitialGuessError {
    /// The starting position does not have one coordinate per parameter.
    DimensionMismatch {
        /// The number of parameters.
        expected: usize,
        /// The number of coordinates of the starting position.
        found: usize,
    },
    /// Two walkers would start from the same position.
    DegenerateEnsemble,
}

/// Every walker has `dimension` coordinates.
pub open spec fn all_of_dimension(walkers: Seq<Guess>, dimension: nat) -> bool {
    forall|i: int| 0 <= i < walkers.len() ==> (#[trigger] guess_bits(walkers[i])).len() == dimension
}

/// What may come of asking for `walker_count` walkers around a starting
/// position with the coordinates `start`, for a problem of `dimension`
/// parameters.
pub open spec fn ensemble_outcome(
    start: Seq<u32>,
    dimension: nat,
    walker_count: nat,
    result: Result<Vec<Guess>, InitialGuessError>,
) -> bool {
    match result {
        Ok(walkers) => {
            &&& start.len() == dimension
            &&& walkers@.len() == walker_count
            &&& all_of_dimension(walkers@, dimension)
            &&& pairwise_distinct(walkers@)
        },
        Err(InitialGuessError::DimensionMismatch { expected, found }) => {
            &&& start.len() != dimension
            &&& expected == dimension
            &&& found == start.len()
        },
        Err(InitialGuessError::DegenerateEnsemble) => {
            &&& start.len() == dimension
            &&& walker_count >= 2
        },
    }
}

/// Accepts an ensemble exactly when no two of its walkers coincide, and
/// hands it back unchanged.
pub fn checked_ensemble(walkers: Vec<Guess>) -> (result: Result<Vec<Guess>, InitialGuessError>)
    ensures
        match result {
            Ok(accepted) => accepted == walkers && pairwise_distinct(walkers@),
            Err(e) => e == InitialGuessError::DegenerateEnsemble && !pairwise_distinct(walkers@),
        },
{
    if all_distinct(&walkers) {
        Ok(walkers)
    } else {
        Err(InitialGuessError::DegenerateEnsemble)
    }
}

/// Makes one starting position per walker around `start`. The sampler draws
/// them at random, close to `start`; how close is its choice and no part
/// of the contract. An ensemble in which two walkers coincide is refused,
/// and so is a starting position that does not have `dimension`
/// coordinates.
pub fn initial_ensemble(start: &Guess, dimension: usize, walker_count: usize) -> (result: Result<
    Vec<Guess>,
    InitialGuessError,
>)
    ensures
        ensemble_outcome(guess_bits(*start), dimension as nat, walker_count as nat, result),
{
    let found = guess_len(start);
    if found != dimension {
        return Err(InitialGuessError::DimensionMismatch { expected: dimension, found });
    }
    let walkers = perturbed_guesses(start, walker_count);
    checked_ensemble(walkers)
}

} // verus!
