use vstd::prelude::*;

verus! {

/// The character of a decimal digit.
pub open spec fn digit_char(d: int) -> char {
    seq!['0', '1', '2', '3', '4', '5', '6', '7', '8', '9'][d]
}

/// The decimal digits of `n`, most significant first, without leading zeros.
pub open spec fn digits_of(n: nat) -> Seq<char>
    decreases n,
{
    if n < 10 {
        seq![digit_char(n as int)]
    } else {
        digits_of(n / 10).push(digit_char((n % 10) as int))
    }
}

/// An integer in decimal, with a leading `-` when it is negative.
pub open spec fn int_text(v: int) -> Seq<char> {
    if v < 0 {
        seq!['-'] + digits_of((-v) as nat)
    } else {
        digits_of(v as nat)
    }
}

/// The sign of a value in hundredths: `-` when it is negative.
pub open spec fn sign_text(v: int) -> Seq<char> {
    if v < 0 {
        seq!['-']
    } else {
        Seq::empty()
    }
}

/// The magnitude of a value.
pub open spec fn magnitude(v: int) -> nat {
    if v < 0 {
        (-v) as nat
    } else {
        v as nat
    }
}

/// A value given in hundredths, written with exactly two decimals
/// (`-5` is `-0.05`, `6900` is `69.00`).
pub open spec fn fixed2_text(v: int) -> Seq<char> {
    let a = magnitude(v);
    sign_text(v) + digits_of(a / 100) + seq!['.', digit_char(((a % 100) / 10) as int), digit_char((a % 10) as int)]
}

/// A value given in hundredths, written with as few decimals as it needs
/// (`5500` is `55`, `5550` is `55.5`, `5525` is `55.25`).
pub open spec fn short_text(v: int) -> Seq<char> {
    let a = magnitude(v);
    let whole = sign_text(v) + digits_of(a / 100);
    if a % 100 == 0 {
        whole
    } else if a % 10 == 0 {
        whole + seq!['.', digit_char(((a % 100) / 10) as int)]
    } else {
        whole + seq!['.', digit_char(((a % 100) / 10) as int), digit_char((a % 10) as int)]
    }
}

/// The text of one decimal digit.
fn digit_str(d: u64) -> (r: &'static str)
    requires
        d < 10,
    ensures
        r@ == seq![digit_char(d as int)],
{
    proof {
        reveal_strlit("0");
        reveal_strlit("1");
        reveal_strlit("2");
        reveal_strlit("3");
        reveal_strlit("4");
        reveal_strlit("5");
        reveal_strlit("6");
        reveal_strlit("7");
        reveal_strlit("8");
        reveal_strlit("9");
    }
    if d == 0 {
        "0"
    } else if d == 1 {
        "1"
    } else if d == 2 {
        "2"
    } else if d == 3 {
        "3"
    } else if d == 4 {
        "4"
    } else if d == 5 {
        "5"
    } else if d == 6 {
        "6"
    } else if d == 7 {
        "7"
    } else if d == 8 {
        "8"
    } else {
        "9"
    }
}

/// Appends the decimal digits of `n`.
pub fn push_digits(out: &mut String, n: u64)
    ensures
        final(out)@ == old(out)@ + digits_of(n as nat),
    decreases n,
{
    if n >= 10 {
        push_digits(out, n / 10);
    }
    out.append(digit_str(n % 10));
    proof {
        if n >= 10 {
            assert(final(out)@ =~= old(out)@ + digits_of(n as nat));
        }
    }
}

/// Writes an integer in decimal.
pub fn int_to_text(v: i64) -> (r: String)
    ensures
        r@ == int_text(v as int),
{
    let mut out = String::new();
    if v < 0 {
        out.append("-");
        push_digits(&mut out, (-(v as i128)) as u64);
    } else {
        push_digits(&mut out, v as u64);
    }
    proof {
        reveal_strlit("-");
        assert(out@ =~= int_text(v as int));
    }
    out
}

/// Appends the sign of `v` and returns its magnitude.
fn push_sign(out: &mut String, v: i64) -> (a: u64)
    ensures
        final(out)@ == old(out)@ + sign_text(v as int),
        a == magnitude(v as int),
{
    proof {
        reveal_strlit("-");
    }
    if v < 0 {
        out.append("-");
        (-(v as i128)) as u64
    } else {
        proof {
            assert(final(out)@ =~= old(out)@ + sign_text(v as int));
        }
        v as u64
    }
}

/// Appends a value in hundredths with exactly two decimals.
pub fn push_fixed2(out: &mut String, v: i64)
    ensures
        final(out)@ == old(out)@ + fixed2_text(v as int),
{
    let a = push_sign(out, v);
    push_digits(out, a / 100);
    out.append(".");
    out.append(digit_str((a % 100) / 10));
    out.append(digit_str(a % 10));
    proof {
        reveal_strlit(".");
        assert(final(out)@ =~= old(out)@ + fixed2_text(v as int));
    }
}

/// Appends a value in hundredths with as few decimals as it needs.
pub fn push_short(out: &mut String, v: i64)
    ensures
        final(out)@ == old(out)@ + short_text(v as int),
{
    let a = push_sign(out, v);
    push_digits(out, a / 100);
    if a % 100 != 0 {
        out.append(".");
        out.append(digit_str((a % 100) / 10));
        if a % 10 != 0 {
            out.append(digit_str(a % 10));
        }
    }
    proof {
        reveal_strlit(".");
        assert(final(out)@ =~= old(out)@ + short_text(v as int));
    }
}

} // verus!
