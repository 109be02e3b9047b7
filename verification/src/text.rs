//! Decimal numbers and lists of dimensions as text, for error reports.

use vstd::prelude::*;
use vstd::string::StringExecFns;

verus! {

/// The character of one decimal digit.
pub open spec fn digit_char(d: nat) -> char {
    if d == 0 {
        '0'
    } else if d == 1 {
        '1'
    } else if d == 2 {
        '2'
    } else if d == 3 {
        '3'
    } else if d == 4 {
        '4'
    } else if d == 5 {
        '5'
    } else if d == 6 {
        '6'
    } else if d == 7 {
        '7'
    } else if d == 8 {
        '8'
    } else {
        '9'
    }
}

/// A number in decimal, without leading zeros.
pub open spec fn decimal(n: nat) -> Seq<char>
    decreases n,
{
    if n < 10 {
        seq![digit_char(n)]
    } else {
        decimal(n / 10).push(digit_char(n % 10))
    }
}

/// Numbers in decimal, separated by a comma and a space.
pub open spec fn comma_separated(numbers: Seq<usize>) -> Seq<char>
    decreases numbers.len(),
{
    if numbers.len() == 0 {
        Seq::empty()
    } else if numbers.len() == 1 {
        decimal(numbers[0] as nat)
    } else {
        comma_separated(numbers.drop_last()) + ", "@ + decimal(numbers.last() as nat)
    }
}

/// A list of dimensions in square brackets, such as `[2, 3]`.
pub open spec fn dims_text(dims: Seq<usize>) -> Seq<char> {
    "["@ + comma_separated(dims) + "]"@
}

/// A shape as it is named in reports, such as `Shape([2, 3])`.
pub open spec fn shape_text(dims: Seq<usize>) -> Seq<char> {
    "Shape("@ + dims_text(dims) + ")"@
}

fn digit_text(d: usize) -> (s: &'static str)
    requires
        d < 10,
    ensures
        s@ == seq![digit_char(d as nat)],
{
    proof {
        reveal_strlit("0");
        reveal_strlit("1");
        reveal_strlit("2");
        reveal_strlit("3");
        reveal_strlit("4");
        reveal_strlit("5");
        reveal_strlit("6");
        reveal_strlit("7");
        reveal_strlit("8");
        reveal_strlit("9");
    }
    let s = if d == 0 {
        "0"
    } else if d == 1 {
        "1"
    } else if d == 2 {
        "2"
    } else if d == 3 {
        "3"
    } else if d == 4 {
        "4"
    } else if d == 5 {
        "5"
    } else if d == 6 {
        "6"
    } else if d == 7 {
        "7"
    } else if d == 8 {
        "8"
    } else {
        "9"
    };
    assert(s@ =~= seq![digit_char(d as nat)]);
    s
}

/// Appends `n` in decimal.
pub fn push_decimal(out: &mut String, n: usize)
    ensures
        final(out)@ == old(out)@ + decimal(n as nat),
    decreases n,
{
    let ghost before = out@;
    if n >= 10 {
        push_decimal(out, n / 10);
    }
    out.append(digit_text(n % 10));
    assert(out@ =~= before + decimal(n as nat));
}

/// Appends a list of dimensions in square brackets.
pub fn push_dims(out: &mut String, dims: &[usize])
    ensures
        final(out)@ == old(out)@ + dims_text(dims@),
{
    let ghost before = out@;
    out.append("[");
    let mut i: usize = 0;
    assert(dims@.subrange(0, 0) =~= Seq::<usize>::empty());
    assert(out@ =~= before + "["@ + comma_separated(dims@.subrange(0, 0)));
    while i < dims.len()
        invariant
            i <= dims@.len(),
            out@ == before + "["@ + comma_separated(dims@.subrange(0, i as int)),
        decreases dims@.len() - i,
    {
        let ghost done = dims@.subrange(0, i as int);
        let ghost next = dims@.subrange(0, i + 1);
        assert(next.drop_last() =~= done);
        assert(next.last() == dims@[i as int]);
        if i > 0 {
            out.append(", ");
        }
        push_decimal(out, dims[i]);
        assert(out@ =~= before + "["@ + comma_separated(next));
        i += 1;
    }
    assert(dims@.subrange(0, dims@.len() as int) =~= dims@);
    out.append("]");
    assert(out@ =~= before + dims_text(dims@));
}

/// Appends a shape as it is named in reports.
pub fn push_shape(out: &mut String, dims: &[usize])
    ensures
        final(out)@ == old(out)@ + shape_text(dims@),
{
    let ghost before = out@;
    out.append("Shape(");
    push_dims(out, dims);
    out.append(")");
    assert(out@ =~= before + shape_text(dims@));
}

} // verus!
