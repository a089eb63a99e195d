//! The chain that a sampling run returned, with the names of its parameters,
//! and its export as a comma-separated table.
//!
//! A chain is kept in the order in which the sampler emitted it, and burn-in
//! and stride count along that order. The flattened chain of `emcee` runs
//! iteration by iteration and, within an iteration, walker by walker; nothing
//! here depends on that grouping.

use vstd::prelude::*;
use vstd::string::StringExecFns;
use emcee::Guess;
use crate::csv::{joined_line, kept, kept_count, lemma_kept_index_in_range, line, lines, table, texts};
use crate::guess::{coordinate_texts, decimal_texts, guess_bits};

verus! {

/// Why a chain could not be exported.
#[derive(Debug, Clone, Copy, PartialEq, Eq, Structural)]
pub enum ExportError {
    /// The stride between retained samples was zero.
    ZeroThinning,
}

/// A finished chain: the parameter names and every sample, in the order in
/// which the sampler emitted them.
pub struct Posterior {
    parameter_names: Vec<String>,
    samples: Vec<Guess>,
    dimension: usize,
}

/// What a [`Posterior`] holds: the names as character sequences, and each
/// sample as the bit patterns of its coordinates.
pub struct PosteriorView {
    pub parameter_names: Seq<Seq<char>>,
    pub samples: Seq<Seq<u32>>,
}

/// The coordinates of each position of a chain.
pub open spec fn chain_bits(samples: Seq<Guess>) -> Seq<Seq<u32>> {
    samples.map_values(|g: Guess| guess_bits(g))
}

impl PosteriorView {
    /// The number of parameters: one per name.
    pub open spec fn dimension(self) -> nat {
        self.parameter_names.len()
    }

    /// The samples that remain after the first `skip` are dropped and every
    /// `thinning`-th of the rest is kept.
    pub open spec fn retained(self, skip: nat, thinning: nat) -> Seq<Seq<u32>> {
        kept(self.samples, skip, thinning)
    }

    /// The exported table: a header line of the names, then one line per
    /// retained sample with the text of each of its coordinates.
    pub open spec fn export_text(self, skip: nat, thinning: nat) -> Seq<char> {
        table(
            self.parameter_names,
            self.retained(skip, thinning).map_values(|row: Seq<u32>| decimal_texts(row)),
        )
    }
}

impl View for Posterior {
    type V = PosteriorView;

    closed spec fn view(&self) -> PosteriorView {
        PosteriorView {
            parameter_names: texts(self.parameter_names@),
            samples: chain_bits(self.samples@),
        }
    }
}

impl Posterior {
    #[verifier::type_invariant]
    spec fn well_formed(&self) -> bool {
        self.dimension == self.parameter_names@.len()
    }

    /// Wraps a chain, keeping the names and the samples as they are given.
    /// The order of the samples is the order in which the sampler emitted
    /// them, whatever that is: burn-in and stride count along it.
    pub fn new(parameter_names: Vec<String>, samples: Vec<Guess>) -> (posterior: Posterior)
        ensures
            posterior@.parameter_names == texts(parameter_names@),
            posterior@.samples == chain_bits(samples@),
    {
        let dimension = parameter_names.len();
        Posterior { parameter_names, samples, dimension }
    }

    /// The names of the parameters, in order.
    pub fn parameter_names(&self) -> (names: &Vec<String>)
        ensures
            texts(names@) == self@.parameter_names,
    {
        &self.parameter_names
    }

    /// The samples, in the order in which the sampler emitted them.
    pub fn samples(&self) -> (samples: &Vec<Guess>)
        ensures
            chain_bits(samples@) == self@.samples,
    {
        &self.samples
    }

    /// The number of parameters.
    pub fn dimension(&self) -> (dimension: usize)
        ensures
            dimension == self@.dimension(),
    {
        proof {
            use_type_invariant(self);
        }
        self.dimension
    }

    /// Takes the posterior apart: the names, then the samples.
    pub fn into_parts(self) -> (parts: (Vec<String>, Vec<Guess>))
        ensures
            texts(parts.0@) == self@.parameter_names,
            chain_bits(parts.1@) == self@.samples,
    {
        (self.parameter_names, self.samples)
    }

    /// Renders the chain as a table. The first `skip` samples are left out
    /// as burn-in; of the rest every `thinning`-th is written, beginning
    /// with the first. A stride of zero is refused.
    pub fn to_csv(&self, skip: usize, thinning: usize) -> (result: Result<String, ExportError>)
        ensures
            match result {
                Ok(text) => thinning > 0 && text@ == self@.export_text(skip as nat, thinning as nat),
                Err(e) => thinning == 0 && e == ExportError::ZeroThinning,
            },
    {
        if thinning == 0 {
            return Err(ExportError::ZeroThinning);
        }
        let len = self.samples.len();
        let ghost rows = self@.retained(skip as nat, thinning as nat).map_values(
            |row: Seq<u32>| decimal_texts(row),
        );
        let ghost count = kept_count(len as nat, skip as nat, thinning as nat);
        let mut out = joined_line(&self.parameter_names);
        let mut index: usize = skip;
        let ghost mut k: nat = 0;
        proof {
            lemma_kept_index_in_range(len as nat, skip as nat, thinning as nat, 0);
        }
        while index < len
            invariant
                thinning > 0,
                len == self.samples@.len(),
                count == kept_count(len as nat, skip as nat, thinning as nat),
                rows == self@.retained(skip as nat, thinning as nat).map_values(
                    |row: Seq<u32>| decimal_texts(row),
                ),
                k <= count,
                index < len ==> index == skip + k * thinning && k < count,
                index >= len ==> k == count,
                out@ == line(self@.parameter_names) + lines(rows.take(k as int)),
            decreases len - index,
        {
            let cells = coordinate_texts(&self.samples[index]);
            let row = joined_line(&cells);
            proof {
                let done = rows.take(k as int);
                let next = rows.take(k as int + 1);
                assert(next.drop_last() == done);
                assert(next.last() == rows[k as int]);
                assert(self@.samples[index as int] == guess_bits(self.samples@[index as int]));
                assert(rows[k as int] == decimal_texts(guess_bits(self.samples@[index as int])));
                lemma_kept_index_in_range(len as nat, skip as nat, thinning as nat, k + 1);
                assert((k + 1) * thinning == k * thinning + thinning) by (nonlinear_arith);
            }
            out.append(row.as_str());
            if len - index <= thinning {
                index = len;
            } else {
                index = index + thinning;
            }
            proof {
                k = k + 1;
            }
        }
        proof {
            assert(rows.take(k as int) == rows);
        }
        Ok(out)
    }
}

/// Exported without burn-in and with a stride of one, the table has one
/// line per sample of the chain, in the order of the chain.
pub proof fn lemma_full_export(posterior: PosteriorView)
    ensures
        posterior.retained(0, 1) == posterior.samples,
        posterior.export_text(0, 1) == table(
            posterior.parameter_names,
            posterior.samples.map_values(|row: Seq<u32>| decimal_texts(row)),
        ),
{
    crate::csv::lemma_kept_with_unit_stride(posterior.samples, 0);
}

/// Exported with a burn-in that covers the whole chain, the table is the
/// header line alone.
pub proof fn lemma_export_past_the_end(posterior: PosteriorView, skip: nat, thinning: nat)
    requires
        skip >= posterior.samples.len(),
    ensures
        posterior.retained(skip, thinning) == Seq::<Seq<u32>>::empty(),
        posterior.export_text(skip, thinning) == line(posterior.parameter_names),
{
    crate::csv::lemma_kept_nothing_past_the_end(posterior.samples, skip, thinning);
    let rows = posterior.retained(skip, thinning).map_values(|row: Seq<u32>| decimal_texts(row));
    assert(rows =~= Seq::<Seq<Seq<char>>>::empty());
    assert(posterior.export_text(skip, thinning) =~= line(posterior.parameter_names));
}

/// The `k`-th exported sample is the one at `skip + k * thinning` in the
/// chain, and the export holds every such sample that the chain has.
pub proof fn lemma_export_follows_the_stride(
    posterior: PosteriorView,
    skip: nat,
    thinning: nat,
    k: nat,
)
    requires
        thinning > 0,
    ensures
        k < posterior.retained(skip, thinning).len() <==> skip + k * thinning
            < posterior.samples.len(),
        k < posterior.retained(skip, thinning).len() ==> posterior.retained(skip, thinning)[k as int]
            == posterior.samples[(skip + k * thinning) as int],
{
    lemma_kept_index_in_range(posterior.samples.len(), skip, thinning, k);
}

} // verus!
