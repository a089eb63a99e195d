//! Likelihoods: how well a prediction agrees with what was observed.

use vstd::prelude::*;
use crate::models::{Prediction, PredictionView};

verus! {

/// A joint log-likelihood: a function from a prediction to a number.
///
/// An implementation is expected to be a pure function of the prediction.
pub trait Likelihood {
    /// The numbers that predictions and log-likelihoods are made of.
    type Value;

    /// Evaluates the log-likelihood of a prediction.
    fn loglikelihood(&self, prediction: Prediction<Self::Value>) -> Self::Value;
}

/// The log-likelihood of one observation: a function from the predicted
/// observable, the error of that prediction and the residual error of the
/// model to a number.
///
/// An implementation is expected to be a pure function of its arguments.
pub trait PartialLikelihood {
    /// The numbers that observations and log-likelihoods are made of.
    type Value;

    /// Evaluates the contribution of this observation.
    fn loglikelihood(
        &self,
        observable: &Self::Value,
        prediction_error: &Self::Value,
        residual_error: &Self::Value,
    ) -> Self::Value;
}

impl<O: PartialLikelihood + ?Sized> PartialLikelihood for Box<O> {
    type Value = O::Value;

    fn loglikelihood(
        &self,
        observable: &Self::Value,
        prediction_error: &Self::Value,
        residual_error: &Self::Value,
    ) -> (value: Self::Value)
        ensures
            call_ensures(
                O::loglikelihood,
                (&**self, observable, prediction_error, residual_error),
                value,
            ),
    {
        (**self).loglikelihood(observable, prediction_error, residual_error)
    }
}

/// A prediction does not have one observable per observation.
#[derive(Debug, Clone, Copy, PartialEq, Eq, Structural)]
pub struct CountMismatch {
    /// How many observations the set holds.
    pub observations: usize,
    /// How many observables the prediction holds.
    pub observables: usize,
}

/// Observations in a fixed order: the observation at an index belongs to
/// the observable that a prediction holds at the same index.
pub struct ObservationSet<O> {
    pub observations: Vec<O>,
}

impl<O> ObservationSet<O> {
    /// A set of the given observations, in the given order.
    pub fn new(observations: Vec<O>) -> (set: Self)
        ensures
            set.observations == observations,
    {
        ObservationSet { observations }
    }

    /// Adds an observation behind those that the set holds.
    pub fn add(&mut self, observation: O)
        ensures
            final(self).observations@ == old(self).observations@.push(observation),
    {
        self.observations.push(observation)
    }
}

/// The contribution `term` is that of `observation` to the prediction's
/// observable at `index`: the observation was asked with that observable,
/// its error and the prediction's residual error.
pub open spec fn is_term<O: PartialLikelihood>(
    observation: O,
    prediction: PredictionView<O::Value>,
    index: int,
    term: O::Value,
) -> bool {
    call_ensures(
        O::loglikelihood,
        (
            &observation,
            &prediction.observables[index],
            &prediction.errors[index],
            &prediction.residual_error,
        ),
        term,
    )
}

/// The contributions are those of the observations to the prediction, index
/// by index.
pub open spec fn are_terms<O: PartialLikelihood>(
    observations: Seq<O>,
    prediction: PredictionView<O::Value>,
    terms: Seq<O::Value>,
) -> bool {
    &&& terms.len() == observations.len()
    &&& forall|i: int|
        0 <= i < terms.len() ==> is_term(observations[i], prediction, i, #[trigger] terms[i])
}

/// The items picked in the given order: the item at `order[i]` comes to
/// stand at `i`.
pub open spec fn rearranged<A>(items: Seq<A>, order: Seq<int>) -> Seq<A> {
    Seq::new(order.len(), |i: int| items[order[i]])
}

/// The pairing goes by index and by nothing else: when the observations and
/// the entries of a prediction are rearranged in the same way, the
/// contributions are rearranged in that way too.
pub proof fn lemma_terms_follow_the_pairing<O: PartialLikelihood>(
    observations: Seq<O>,
    prediction: PredictionView<O::Value>,
    terms: Seq<O::Value>,
    order: Seq<int>,
)
    requires
        prediction.well_formed(),
        prediction.observables.len() == observations.len(),
        are_terms(observations, prediction, terms),
        forall|i: int| 0 <= i < order.len() ==> 0 <= #[trigger] order[i] < observations.len(),
    ensures
        are_terms(
            rearranged(observations, order),
            PredictionView {
                observables: rearranged(prediction.observables, order),
                errors: rearranged(prediction.errors, order),
                residual_error: prediction.residual_error,
            },
            rearranged(terms, order),
        ),
{
    let moved = PredictionView {
        observables: rearranged(prediction.observables, order),
        errors: rearranged(prediction.errors, order),
        residual_error: prediction.residual_error,
    };
    assert forall|i: int| 0 <= i < order.len() implies is_term(
        rearranged(observations, order)[i],
        moved,
        i,
        #[trigger] rearranged(terms, order)[i],
    ) by {
        assert(is_term(observations[order[i]], prediction, order[i], terms[order[i]]));
    }
}

impl<O: PartialLikelihood> ObservationSet<O> {
    /// Asks every observation for its contribution to the log-likelihood of
    /// a prediction. The prediction is refused exactly when it does not have
    /// one observable per observation.
    pub fn terms(&self, prediction: &Prediction<O::Value>) -> (result: Result<
        Vec<O::Value>,
        CountMismatch,
    >)
        ensures
            match result {
                Ok(terms) => {
                    &&& prediction@.observables.len() == self.observations@.len()
                    &&& are_terms(self.observations@, prediction@, terms@)
                },
                Err(e) => {
                    &&& prediction@.observables.len() != self.observations@.len()
                    &&& e.observations == self.observations@.len()
                    &&& e.observables == prediction@.observables.len()
                },
            },
    {
        let count = self.observations.len();
        if prediction.len() != count {
            return Err(CountMismatch { observations: count, observables: prediction.len() });
        }
        let observables = prediction.observables();
        let errors = prediction.errors();
        let residual_error = prediction.residual_error();
        let mut terms: Vec<O::Value> = Vec::new();
        let mut i: usize = 0;
        while i < count
            invariant
                count == self.observations@.len(),
                observables@ == prediction@.observables,
                errors@ == prediction@.errors,
                *residual_error == prediction@.residual_error,
                observables@.len() == count,
                errors@.len() == count,
                i <= count,
                terms@.len() == i,
                forall|j: int|
                    0 <= j < i ==> is_term(
                        self.observations@[j],
                        prediction@,
                        j,
                        #[trigger] terms@[j],
                    ),
            decreases count - i,
        {
            let term = self.observations[i].loglikelihood(
                &observables[i],
                &errors[i],
                residual_error,
            );
            terms.push(term);
            i += 1;
        }
        Ok(terms)
    }
}

} // verus!
