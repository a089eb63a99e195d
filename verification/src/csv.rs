//! Comma-separated text: how cells make a line and lines make a table, and
//! which entries of a chain a burn-in count and a stride keep.

use vstd::prelude::*;
use vstd::string::StringExecFns;

verus! {

/// The parts in order, with `sep` between neighbours and nowhere else.
pub open spec fn join(parts: Seq<Seq<char>>, sep: char) -> Seq<char>
    decreases parts.len(),
{
    if parts.len() == 0 {
        Seq::empty()
    } else if parts.len() == 1 {
        parts[0]
    } else {
        join(parts.drop_last(), sep) + seq![sep] + parts.last()
    }
}

/// One line of a table: the cells joined by commas, then a line feed.
pub open spec fn line(cells: Seq<Seq<char>>) -> Seq<char> {
    join(cells, ',') + seq!['\n']
}

/// The lines of the given rows, one after the other.
pub open spec fn lines(rows: Seq<Seq<Seq<char>>>) -> Seq<char>
    decreases rows.len(),
{
    if rows.len() == 0 {
        Seq::empty()
    } else {
        lines(rows.drop_last()) + line(rows.last())
    }
}

/// A table: the header line, then one line per row.
pub open spec fn table(header: Seq<Seq<char>>, rows: Seq<Seq<Seq<char>>>) -> Seq<char> {
    line(header) + lines(rows)
}

/// How many of `len` entries remain when the first `skip` are dropped and
/// every `thinning`-th of the rest is kept, starting with the first of them.
pub open spec fn kept_count(len: nat, skip: nat, thinning: nat) -> nat {
    if thinning == 0 || skip >= len {
        0
    } else {
        ((len - skip - 1) / (thinning as int) + 1) as nat
    }
}

/// The entries at `skip`, `skip + thinning`, `skip + 2 * thinning`, ... as
/// far as the chain reaches.
pub open spec fn kept<A>(chain: Seq<A>, skip: nat, thinning: nat) -> Seq<A> {
    Seq::new(kept_count(chain.len(), skip, thinning), |k: int| chain[skip + k * thinning])
}

/// The `k`-th index of the progression lies inside the chain exactly when
/// `k` is below the number of kept entries.
pub proof fn lemma_kept_index_in_range(len: nat, skip: nat, thinning: nat, k: nat)
    requires
        thinning > 0,
    ensures
        skip + k * thinning < len <==> k < kept_count(len, skip, thinning),
{
    if skip < len {
        let x: int = len - skip - 1;
        let d: int = thinning as int;
        let q: int = x / d;
        assert(x == d * q + x % d && 0 <= x % d < d) by {
            vstd::arithmetic::div_mod::lemma_fundamental_div_mod(x, d);
            vstd::arithmetic::div_mod::lemma_mod_bound(x, d);
        }
        if (k as int) <= q {
            assert(k * d <= q * d) by (nonlinear_arith)
                requires
                    0 <= k <= q,
                    d > 0,
            ;
            assert(q * d == d * q) by (nonlinear_arith);
        } else {
            assert(k * d >= (q + 1) * d) by (nonlinear_arith)
                requires
                    k >= q + 1,
                    d > 0,
            ;
            assert((q + 1) * d == d * q + d) by (nonlinear_arith);
        }
    } else {
        assert(k * thinning >= 0) by (nonlinear_arith)
            requires
                k >= 0,
                thinning > 0,
        ;
    }
}

/// With a stride of one, what is kept is the chain without its first `skip`
/// entries: every later entry once, in the order of the chain. Without burn-in
/// that is the whole chain.
pub proof fn lemma_kept_with_unit_stride<A>(chain: Seq<A>, skip: nat)
    requires
        skip <= chain.len(),
    ensures
        kept(chain, skip, 1) == chain.skip(skip as int),
        kept(chain, 0, 1) == chain,
{
    assert(kept(chain, skip, 1) =~= chain.skip(skip as int));
    assert(kept(chain, 0, 1) =~= chain);
}

/// When the burn-in covers the whole chain, nothing is kept.
pub proof fn lemma_kept_nothing_past_the_end<A>(chain: Seq<A>, skip: nat, thinning: nat)
    requires
        skip >= chain.len(),
    ensures
        kept(chain, skip, thinning) == Seq::<A>::empty(),
{
    assert(kept(chain, skip, thinning) =~= Seq::<A>::empty());
}

/// The character sequences that the given strings hold.
pub open spec fn texts(cells: Seq<String>) -> Seq<Seq<char>> {
    cells.map_values(|cell: String| cell@)
}

/// Writes one line of a table from its cells.
pub fn joined_line(cells: &Vec<String>) -> (out: String)
    ensures
        out@ == line(texts(cells@)),
{
    let mut out = String::new();
    let mut i: usize = 0;
    while i < cells.len()
        invariant
            i <= cells.len(),
            out@ == join(texts(cells@).take(i as int), ','),
        decreases cells.len() - i,
    {
        proof {
            let done = texts(cells@).take(i as int);
            let next = texts(cells@).take(i + 1);
            assert(next.drop_last() == done);
            assert(next.last() == cells@[i as int]@);
            reveal_strlit(",");
            assert(","@ == seq![',']);
        }
        if i > 0 {
            out.append(",");
        }
        out.append(cells[i].as_str());
        i += 1;
    }
    proof {
        assert(texts(cells@).take(i as int) == texts(cells@));
        reveal_strlit("\n");
        assert("\n"@ == seq!['\n']);
    }
    out.append("\n");
    out
}

} // verus!
