//! Forward models: what a model predicts for a position in parameter space.

use vstd::prelude::*;
use emcee::Guess;

verus! {

/// The observables and the errors of a prediction differ in number.
#[derive(Debug, Clone, Copy, PartialEq, Eq, Structural)]
pub struct LengthMismatch {
    /// How many observables were given.
    pub observables: usize,
    /// How many errors were given.
    pub errors: usize,
}

/// What a model predicts: the observables, the uncertainty of each, and one
/// residual error that applies to all of them alike.
pub struct Prediction<T> {
    observables: Vec<T>,
    errors: Vec<T>,
    residual_error: T,
}

/// What a [`Prediction`] holds.
pub struct PredictionView<T> {
    pub observables: Seq<T>,
    pub errors: Seq<T>,
    pub residual_error: T,
}

impl<T> PredictionView<T> {
    /// Every observable has its error.
    pub open spec fn well_formed(self) -> bool {
        self.observables.len() == self.errors.len()
    }
}

impl<T> View for Prediction<T> {
    type V = PredictionView<T>;

    closed spec fn view(&self) -> PredictionView<T> {
        PredictionView {
            observables: self.observables@,
            errors: self.errors@,
            residual_error: self.residual_error,
        }
    }
}

impl<T> Prediction<T> {
    #[verifier::type_invariant]
    spec fn paired(&self) -> bool {
        self.observables@.len() == self.errors@.len()
    }

    /// Builds a prediction. It is refused exactly when the observables and
    /// the errors differ in number.
    pub fn new(observables: Vec<T>, errors: Vec<T>, residual_error: T) -> (result: Result<
        Prediction<T>,
        LengthMismatch,
    >)
        ensures
            match result {
                Ok(prediction) => {
                    &&& observables@.len() == errors@.len()
                    &&& prediction@.observables == observables@
                    &&& prediction@.errors == errors@
                    &&& prediction@.residual_error == residual_error
                },
                Err(e) => {
                    &&& observables@.len() != errors@.len()
                    &&& e.observables == observables@.len()
                    &&& e.errors == errors@.len()
                },
            },
    {
        if observables.len() != errors.len() {
            return Err(LengthMismatch { observables: observables.len(), errors: errors.len() });
        }
        Ok(Prediction { observables, errors, residual_error })
    }

    /// The number of observables, which is also the number of errors.
    pub fn len(&self) -> (n: usize)
        ensures
            n == self@.observables.len(),
            n == self@.errors.len(),
    {
        proof {
            use_type_invariant(self);
        }
        self.observables.len()
    }

    /// The predicted values.
    pub fn observables(&self) -> (values: &Vec<T>)
        ensures
            values@ == self@.observables,
    {
        &self.observables
    }

    /// The uncertainty of each predicted value.
    pub fn errors(&self) -> (values: &Vec<T>)
        ensures
            values@ == self@.errors,
            values@.len() == self@.observables.len(),
    {
        proof {
            use_type_invariant(self);
        }
        &self.errors
    }

    /// The residual error, which applies to every observable.
    pub fn residual_error(&self) -> (value: &T)
        ensures
            *value == self@.residual_error,
    {
        &self.residual_error
    }

    /// Takes the prediction apart: observables, errors, residual error.
    pub fn into_parts(self) -> (parts: (Vec<T>, Vec<T>, T))
        ensures
            parts.0@ == self@.observables,
            parts.1@ == self@.errors,
            parts.2 == self@.residual_error,
            parts.0@.len() == parts.1@.len(),
    {
        proof {
            use_type_invariant(&self);
        }
        (self.observables, self.errors, self.residual_error)
    }
}

/// A forward model: a function from a position in parameter space to a
/// prediction.
///
/// An implementation is expected to be pure and total: the same position
/// gives the same prediction, and numbers that are not finite are passed on
/// rather than refused.
pub trait Model {
    /// The numbers that predictions are made of.
    type Value;

    /// Evaluates the model at a position.
    fn predict(&self, proposal: &Guess) -> Prediction<Self::Value>;
}

} // verus!
