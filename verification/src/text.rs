//! Numbers as text.

use vstd::prelude::*;
use vstd::string::StringExecFns;

verus! {

/// The character of the decimal digit `d`.
pub open spec fn digit(d: nat) -> char {
    if d == 0 {
        '0'
    } else if d == 1 {
        '1'
    } else if d == 2 {
        '2'
    } else if d == 3 {
        '3'
    } else if d == 4 {
        '4'
    } else if d == 5 {
        '5'
    } else if d == 6 {
        '6'
    } else if d == 7 {
        '7'
    } else if d == 8 {
        '8'
    } else {
        '9'
    }
}

/// `n` in decimal, without leading zeros.
pub open spec fn decimal(n: nat) -> Seq<char>
    decreases n,
{
    if n < 10 {
        seq![digit(n)]
    } else {
        decimal(n / 10).push(digit(n % 10))
    }
}

/// The decimal places of `rest / (10 * scale)` down to the last one that is
/// not zero; `scale` is the weight of the first place, a power of ten.
pub open spec fn fraction(rest: nat, scale: nat) -> Seq<char>
    decreases scale,
{
    if rest == 0 || scale == 0 {
        Seq::<char>::empty()
    } else {
        seq![digit(rest / scale)] + fraction(rest % scale, scale / 10)
    }
}

/// Nanoseconds in one second.
pub const NANOS_PER_SEC: u64 = 1_000_000_000;

/// `nanos` nanoseconds as seconds in decimal: the whole seconds, then, unless
/// the rest is zero, a point and the decimal places down to the last one that
/// is not zero. 1 500 000 000 reads `1.5`, 50 000 reads `0.00005`, 2 000 000 000
/// reads `2`.
pub open spec fn seconds(nanos: nat) -> Seq<char> {
    let whole = nanos / (NANOS_PER_SEC as nat);
    let rest = nanos % (NANOS_PER_SEC as nat);
    if rest == 0 {
        decimal(whole)
    } else {
        decimal(whole) + seq!['.'] + fraction(rest, 100_000_000)
    }
}

/// The text of one decimal digit.
fn digit_text(d: u64) -> (text: &'static str)
    requires
        d < 10,
    ensures
        text@ == seq![digit(d as nat)],
{
    proof {
        reveal_strlit("0");
        reveal_strlit("1");
        reveal_strlit("2");
        reveal_strlit("3");
        reveal_strlit("4");
        reveal_strlit("5");
        reveal_strlit("6");
        reveal_strlit("7");
        reveal_strlit("8");
        reveal_strlit("9");
    }
    let text = if d == 0 {
        "0"
    } else if d == 1 {
        "1"
    } else if d == 2 {
        "2"
    } else if d == 3 {
        "3"
    } else if d == 4 {
        "4"
    } else if d == 5 {
        "5"
    } else if d == 6 {
        "6"
    } else if d == 7 {
        "7"
    } else if d == 8 {
        "8"
    } else {
        "9"
    };
    assert(text@ =~= seq![digit(d as nat)]);
    text
}

/// Appends `n` in decimal.
pub fn push_decimal(out: &mut String, n: u64)
    ensures
        final(out)@ == old(out)@ + decimal(n as nat),
    decreases n,
{
    if n >= 10 {
        push_decimal(out, n / 10);
    }
    out.append(digit_text(n % 10));
    assert(out@ =~= old(out)@ + decimal(n as nat));
}

/// Appends `nanos` nanoseconds as seconds in decimal.
pub fn push_seconds(out: &mut String, nanos: u64)
    ensures
        final(out)@ == old(out)@ + seconds(nanos as nat),
{
    let whole = nanos / NANOS_PER_SEC;
    let mut rest = nanos % NANOS_PER_SEC;
    push_decimal(out, whole);
    if rest == 0 {
        return ;
    }
    out.append(".");
    proof {
        reveal_strlit(".");
        assert("."@ =~= seq!['.']);
    }
    let ghost head = old(out)@ + decimal(whole as nat) + seq!['.'];
    let ghost places = fraction(rest as nat, 100_000_000);
    let mut scale: u64 = 100_000_000;
    assert(out@ =~= head);
    while rest > 0
        invariant
            rest == 0 || rest < 10 * scale,
            scale == 0 || scale == 1 || scale == 10 || scale == 100 || scale == 1_000 || scale
                == 10_000 || scale == 100_000 || scale == 1_000_000 || scale == 10_000_000
                || scale == 100_000_000,
            out@ + fraction(rest as nat, scale as nat) == head + places,
        decreases scale,
    {
        assert(scale > 0);
        let ghost before = out@;
        let d = rest / scale;
        assert(d < 10) by (nonlinear_arith)
            requires
                d == rest / scale,
                rest < 10 * scale,
                scale > 0,
        ;
        out.append(digit_text(d));
        proof {
            assert(before + fraction(rest as nat, scale as nat) =~= out@ + fraction(
                (rest % scale) as nat,
                (scale / 10) as nat,
            ));
        }
        rest = rest % scale;
        scale = scale / 10;
    }
    assert(fraction(0, scale as nat) =~= Seq::<char>::empty());
    assert(out@ =~= old(out)@ + seconds(nanos as nat));
}

} // verus!
