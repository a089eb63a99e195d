//! Composition of Bayesian inverse problems: priors, likelihoods and forward
//! models behind one log-probability interface for an ensemble sampler, and
//! the storage and tabular export of the chain the sampler returns.

use vstd::prelude::*;
use emcee::Guess;
use crate::csv::texts;
use crate::guess::{ensemble_outcome, guess_bits, initial_ensemble, InitialGuessError};
use crate::likelihood::Likelihood;
use crate::models::{Model, Prediction};
use crate::names::{default_names, parameter_names};
use crate::priors::Prior;

pub mod csv;
pub mod guess;
pub mod likelihood;
pub mod models;
pub mod names;
pub mod posterior;
pub mod priors;

verus! {

/// An inverse problem: one prior, one likelihood and one forward model over
/// the same named parameters.
pub struct InferenceProblem<P: Prior, L: Likelihood, M: Model> {
    prior: P,
    likelihood: L,
    model: M,
    parameter_names: Vec<String>,
    dimension: usize,
}

/// What an [`InferenceProblem`] holds.
pub struct InferenceProblemView<P, L, M> {
    pub prior: P,
    pub likelihood: L,
    pub model: M,
    pub parameter_names: Seq<Seq<char>>,
}

impl<P, L, M> InferenceProblemView<P, L, M> {
    /// The number of parameters: one per name.
    pub open spec fn dimension(self) -> nat {
        self.parameter_names.len()
    }
}

impl<P: Prior, L: Likelihood, M: Model> View for InferenceProblem<P, L, M> {
    type V = InferenceProblemView<P, L, M>;

    closed spec fn view(&self) -> InferenceProblemView<P, L, M> {
        InferenceProblemView {
            prior: self.prior,
            likelihood: self.likelihood,
            model: self.model,
            parameter_names: texts(self.parameter_names@),
        }
    }
}

impl<P: Prior, L: Likelihood, M: Model> InferenceProblem<P, L, M> {
    #[verifier::type_invariant]
    spec fn well_formed(&self) -> bool {
        self.dimension == self.parameter_names@.len()
    }

    /// Composes a problem whose parameters carry the given names. There are
    /// as many parameters as names.
    pub fn new(prior: P, likelihood: L, model: M, parameter_names: Vec<String>) -> (problem: Self)
        ensures
            problem@.prior == prior,
            problem@.likelihood == likelihood,
            problem@.model == model,
            problem@.parameter_names == texts(parameter_names@),
    {
        let dimension = parameter_names.len();
        InferenceProblem { prior, likelihood, model, parameter_names, dimension }
    }

    /// Composes a problem of `dimension` parameters named `p0`, `p1`, ...
    pub fn new_unnamed(prior: P, likelihood: L, model: M, dimension: usize) -> (problem: Self)
        ensures
            problem@.prior == prior,
            problem@.likelihood == likelihood,
            problem@.model == model,
            problem@.parameter_names == default_names(dimension as nat),
    {
        let parameter_names = parameter_names(dimension);
        assert(parameter_names@.len() == texts(parameter_names@).len());
        InferenceProblem { prior, likelihood, model, parameter_names, dimension }
    }

    /// The prior.
    pub fn prior(&self) -> (prior: &P)
        ensures
            *prior == self@.prior,
    {
        &self.prior
    }

    /// The likelihood.
    pub fn likelihood(&self) -> (likelihood: &L)
        ensures
            *likelihood == self@.likelihood,
    {
        &self.likelihood
    }

    /// The forward model.
    pub fn model(&self) -> (model: &M)
        ensures
            *model == self@.model,
    {
        &self.model
    }

    /// The names of the parameters, in order.
    pub fn parameter_names(&self) -> (names: &Vec<String>)
        ensures
            texts(names@) == self@.parameter_names,
    {
        &self.parameter_names
    }

    /// The number of parameters.
    pub fn dimension(&self) -> (dimension: usize)
        ensures
            dimension == self@.dimension(),
    {
        proof {
            use_type_invariant(self);
        }
        self.dimension
    }

    /// Takes the problem apart: prior, likelihood, model, names.
    pub fn into_parts(self) -> (parts: (P, L, M, Vec<String>))
        ensures
            parts.0 == self@.prior,
            parts.1 == self@.likelihood,
            parts.2 == self@.model,
            texts(parts.3@) == self@.parameter_names,
    {
        (self.prior, self.likelihood, self.model, self.parameter_names)
    }

    /// Makes one starting position per walker around the prior's starting
    /// position. That position must have one coordinate per parameter, and
    /// no two walkers may coincide.
    pub fn generate_initial(&self, walker_count: usize) -> (result: Result<
        Vec<Guess>,
        InitialGuessError,
    >)
        ensures
            exists|start: Guess|
                {
                    &&& call_ensures(P::initial_guess, (&self@.prior,), start)
                    &&& #[trigger] ensemble_outcome(
                        guess_bits(start),
                        self@.dimension(),
                        walker_count as nat,
                        result,
                    )
                },
    {
        proof {
            use_type_invariant(self);
        }
        let start = self.prior.initial_guess();
        let result = initial_ensemble(&start, self.dimension, walker_count);
        assert(ensemble_outcome(guess_bits(start), self@.dimension(), walker_count as nat, result));
        result
    }

    /// The log-prior at a position: what the prior returns for it.
    pub fn lnprior(&self, params: &Guess) -> (value: P::Value)
        ensures
            call_ensures(P::logprobability, (&self@.prior, params), value),
    {
        self.prior.logprobability(params)
    }
}

impl<P: Prior, L: Likelihood, M: Model<Value = L::Value>> InferenceProblem<P, L, M> {
    /// The log-likelihood at a position: what the likelihood returns for
    /// the model's prediction at that position.
    pub fn lnlike(&self, params: &Guess) -> (value: L::Value)
        ensures
            exists|prediction: Prediction<L::Value>|
                {
                    &&& #[trigger] call_ensures(M::predict, (&self@.model, params), prediction)
                    &&& call_ensures(L::loglikelihood, (&self@.likelihood, prediction), value)
                },
    {
        let prediction = self.model.predict(params);
        self.likelihood.loglikelihood(prediction)
    }
}

} // verus!
