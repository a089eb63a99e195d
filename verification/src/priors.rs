//! Priors: the log-density of a position before any observation, and the
//! position from which sampling starts.

use vstd::prelude::*;
use emcee::Guess;

verus! {

/// A joint prior over the parameters.
///
/// An implementation is expected to be a pure function of the position: a
/// position outside the support has a log-density of negative infinity, and
/// that is a value like any other, not a failure.
pub trait Prior {
    /// The numbers that log-densities are made of.
    type Value;

    /// Evaluates the log-density at a position.
    fn logprobability(&self, proposal: &Guess) -> Self::Value;

    /// The position from which sampling starts.
    fn initial_guess(&self) -> Guess;
}

/// The prior of one parameter.
///
/// An implementation is expected to be a pure function of the coordinate.
pub trait PartialPrior {
    /// The numbers that positions are made of.
    type Coordinate;

    /// The numbers that log-densities are made of.
    type Value;

    /// Evaluates the log-density at a coordinate.
    fn logprobability(&self, proposed: &Self::Coordinate) -> Self::Value;

    /// The value from which sampling starts.
    fn initial_guess(&self) -> Self::Value;
}

impl<Q: PartialPrior + ?Sized> PartialPrior for Box<Q> {
    type Coordinate = Q::Coordinate;

    type Value = Q::Value;

    fn logprobability(&self, proposed: &Self::Coordinate) -> (value: Self::Value)
        ensures
            call_ensures(Q::logprobability, (&**self, proposed), value),
    {
        (**self).logprobability(proposed)
    }

    fn initial_guess(&self) -> (value: Self::Value)
        ensures
            call_ensures(Q::initial_guess, (&**self,), value),
    {
        (**self).initial_guess()
    }
}

/// A position does not have one coordinate per prior.
#[derive(Debug, Clone, Copy, PartialEq, Eq, Structural)]
pub struct DimensionMismatch {
    /// How many priors there are.
    pub priors: usize,
    /// How many coordinates the position has.
    pub coordinates: usize,
}

/// Independent priors, one per parameter: the prior at an index belongs to
/// the coordinate that a position holds at the same index.
pub struct BasicPrior<Q> {
    partial_priors: Vec<Q>,
}

impl<Q> View for BasicPrior<Q> {
    type V = Seq<Q>;

    closed spec fn view(&self) -> Seq<Q> {
        self.partial_priors@
    }
}

/// The log-densities are those of the priors at the coordinates, index by
/// index.
pub open spec fn are_densities<Q: PartialPrior>(
    priors: Seq<Q>,
    coordinates: Seq<Q::Coordinate>,
    densities: Seq<Q::Value>,
) -> bool {
    &&& densities.len() == priors.len()
    &&& forall|i: int|
        0 <= i < densities.len() ==> call_ensures(
            Q::logprobability,
            (&priors[i], &coordinates[i]),
            #[trigger] densities[i],
        )
}

/// The values are the starting values of the priors, index by index.
pub open spec fn are_initial_values<Q: PartialPrior>(priors: Seq<Q>, values: Seq<Q::Value>) -> bool {
    &&& values.len() == priors.len()
    &&& forall|i: int|
        0 <= i < values.len() ==> call_ensures(Q::initial_guess, (&priors[i],), #[trigger] values[i])
}

impl<Q> BasicPrior<Q> {
    /// The joint prior of the given priors, in the given order.
    pub fn new(partial_priors: Vec<Q>) -> (prior: Self)
        ensures
            prior@ == partial_priors@,
    {
        BasicPrior { partial_priors }
    }

    /// The number of parameters: one per prior.
    pub fn dimension(&self) -> (dimension: usize)
        ensures
            dimension == self@.len(),
    {
        self.partial_priors.len()
    }
}

impl<Q: PartialPrior> BasicPrior<Q> {
    /// Asks every prior for the log-density at its coordinate. The position
    /// is refused exactly when it does not have one coordinate per prior.
    pub fn densities(&self, coordinates: &Vec<Q::Coordinate>) -> (result: Result<
        Vec<Q::Value>,
        DimensionMismatch,
    >)
        ensures
            match result {
                Ok(densities) => {
                    &&& coordinates@.len() == self@.len()
                    &&& are_densities(self@, coordinates@, densities@)
                },
                Err(e) => {
                    &&& coordinates@.len() != self@.len()
                    &&& e.priors == self@.len()
                    &&& e.coordinates == coordinates@.len()
                },
            },
    {
        let count = self.partial_priors.len();
        if coordinates.len() != count {
            return Err(DimensionMismatch { priors: count, coordinates: coordinates.len() });
        }
        let mut densities: Vec<Q::Value> = Vec::new();
        let mut i: usize = 0;
        while i < count
            invariant
                count == self.partial_priors@.len(),
                coordinates@.len() == count,
                i <= count,
                densities@.len() == i,
                forall|j: int|
                    0 <= j < i ==> call_ensures(
                        Q::logprobability,
                        (&self.partial_priors@[j], &coordinates@[j]),
                        #[trigger] densities@[j],
                    ),
            decreases count - i,
        {
            let density = self.partial_priors[i].logprobability(&coordinates[i]);
            densities.push(density);
            i += 1;
        }
        Ok(densities)
    }

    /// Asks every prior for the value from which sampling starts.
    pub fn initial_values(&self) -> (values: Vec<Q::Value>)
        ensures
            are_initial_values(self@, values@),
    {
        let count = self.partial_priors.len();
        let mut values: Vec<Q::Value> = Vec::new();
        let mut i: usize = 0;
        while i < count
            invariant
                count == self.partial_priors@.len(),
                i <= count,
                values@.len() == i,
                forall|j: int|
                    0 <= j < i ==> call_ensures(
                        Q::initial_guess,
                        (&self.partial_priors@[j],),
                        #[trigger] values@[j],
                    ),
            decreases count - i,
        {
            let value = self.partial_priors[i].initial_guess();
            values.push(value);
            i += 1;
        }
        values
    }
}

} // verus!
