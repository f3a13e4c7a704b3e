use vstd::prelude::*;

verus! {

/// Source text of a list of attributes: each one followed by a space.
pub open spec fn attrs_text(attrs: Seq<String>) -> Seq<char>
    decreases attrs.len(),
{
    if attrs.len() == 0 {
        Seq::empty()
    } else {
        attrs_text(attrs.drop_last()) + attrs.last()@ + " "@
    }
}

/// Appends the source text of `attrs` to `out`.
pub fn write_attrs(out: &mut String, attrs: &Vec<String>)
    ensures
        final(out)@ == old(out)@ + attrs_text(attrs@),
{
    let ghost start = out@;
    let n = attrs.len();
    let mut i: usize = 0;
    assert(attrs@.take(0) =~= Seq::<String>::empty());
    while i < n
        invariant
            n == attrs@.len(),
            i <= n,
            out@ == start + attrs_text(attrs@.take(i as int)),
        decreases n - i,
    {
        let ghost before = out@;
        out.append(attrs[i].as_str());
        out.append(" ");
        assert(attrs@.take(i + 1).drop_last() =~= attrs@.take(i as int));
        assert(out@ =~= before + attrs[i as int]@ + " "@);
        i = i + 1;
    }
    assert(attrs@.take(n as int) =~= attrs@);
}

/// The decimal digit `d`.
pub open spec fn digit_text(d: nat) -> Seq<char> {
    if d == 0 {
        "0"@
    } else if d == 1 {
        "1"@
    } else if d == 2 {
        "2"@
    } else if d == 3 {
        "3"@
    } else if d == 4 {
        "4"@
    } else if d == 5 {
        "5"@
    } else if d == 6 {
        "6"@
    } else if d == 7 {
        "7"@
    } else if d == 8 {
        "8"@
    } else {
        "9"@
    }
}

/// The decimal numeral of `n`, without leading zeros.
pub open spec fn decimal(n: nat) -> Seq<char>
    decreases n,
{
    if n < 10 {
        digit_text(n)
    } else {
        decimal(n / 10) + digit_text(n % 10)
    }
}

fn digit_str(d: usize) -> (s: &'static str)
    requires
        d < 10,
    ensures
        s@ == digit_text(d as nat),
{
    if d == 0 {
        "0"
    } else if d == 1 {
        "1"
    } else if d == 2 {
        "2"
    } else if d == 3 {
        "3"
    } else if d == 4 {
        "4"
    } else if d == 5 {
        "5"
    } else if d == 6 {
        "6"
    } else if d == 7 {
        "7"
    } else if d == 8 {
        "8"
    } else {
        "9"
    }
}

/// Appends the decimal numeral of `n` to `out`.
pub fn write_decimal(out: &mut String, n: usize)
    ensures
        final(out)@ == old(out)@ + decimal(n as nat),
    decreases n,
{
    if n >= 10 {
        write_decimal(out, n / 10);
    }
    let ghost mid = out@;
    out.append(digit_str(n % 10));
    assert(out@ =~= old(out)@ + decimal(n as nat));
}

} // verus!
