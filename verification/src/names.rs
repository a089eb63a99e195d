//! Names for parameters that were given none: `p0`, `p1`, `p2`, ...

use vstd::prelude::*;
use vstd::string::StringExecFns;

verus! {

/// The character for a single decimal digit.
pub open spec fn digit(d: nat) -> char
    recommends
        d < 10,
{
    if d == 0 {
        '0'
    } else if d == 1 {
        '1'
    } else if d == 2 {
        '2'
    } else if d == 3 {
        '3'
    } else if d == 4 {
        '4'
    } else if d == 5 {
        '5'
    } else if d == 6 {
        '6'
    } else if d == 7 {
        '7'
    } else if d == 8 {
        '8'
    } else {
        '9'
    }
}

/// A number in decimal notation, without leading zeros.
pub open spec fn decimal(n: nat) -> Seq<char>
    decreases n,
{
    if n < 10 {
        seq![digit(n)]
    } else {
        decimal(n / 10) + seq![digit(n % 10)]
    }
}

/// The name of the parameter at `index` when none was given: the letter `p`
/// and the index in decimal notation.
pub open spec fn default_name(index: nat) -> Seq<char> {
    seq!['p'] + decimal(index)
}

/// The names `p0` to `p{count-1}`.
pub open spec fn default_names(count: nat) -> Seq<Seq<char>> {
    Seq::new(count, |i: int| default_name(i as nat))
}

fn digit_text(d: usize) -> (text: &'static str)
    requires
        d < 10,
    ensures
        text@ == seq![digit(d as nat)],
{
    proof {
        reveal_strlit("0");
        reveal_strlit("1");
        reveal_strlit("2");
        reveal_strlit("3");
        reveal_strlit("4");
        reveal_strlit("5");
        reveal_strlit("6");
        reveal_strlit("7");
        reveal_strlit("8");
        reveal_strlit("9");
    }
    let text = if d == 0 {
        "0"
    } else if d == 1 {
        "1"
    } else if d == 2 {
        "2"
    } else if d == 3 {
        "3"
    } else if d == 4 {
        "4"
    } else if d == 5 {
        "5"
    } else if d == 6 {
        "6"
    } else if d == 7 {
        "7"
    } else if d == 8 {
        "8"
    } else {
        "9"
    };
    assert(text@ =~= seq![digit(d as nat)]);
    text
}

fn append_decimal(out: &mut String, n: usize)
    ensures
        final(out)@ == old(out)@ + decimal(n as nat),
    decreases n,
{
    if n >= 10 {
        append_decimal(out, n / 10);
    }
    out.append(digit_text(n % 10));
    assert(out@ =~= old(out)@ + decimal(n as nat));
}

/// Writes the name of the parameter at `index`.
pub fn parameter_name(index: usize) -> (name: String)
    ensures
        name@ == default_name(index as nat),
{
    proof {
        reveal_strlit("p");
    }
    let mut name = String::from_str("p");
    append_decimal(&mut name, index);
    assert(name@ =~= default_name(index as nat));
    name
}

/// Writes the names of `count` parameters.
pub fn parameter_names(count: usize) -> (names: Vec<String>)
    ensures
        crate::csv::texts(names@) == default_names(count as nat),
{
    let mut names: Vec<String> = Vec::new();
    let mut i: usize = 0;
    while i < count
        invariant
            i <= count,
            names@.len() == i,
            forall|j: int| 0 <= j < i ==> (#[trigger] names@[j])@ == default_name(j as nat),
        decreases count - i,
    {
        names.push(parameter_name(i));
        i += 1;
    }
    assert(crate::csv::texts(names@) =~= default_names(count as nat));
    names
}

} // verus!
