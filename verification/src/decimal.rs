use vstd::prelude::*;

verus! {

/// The ASCII bytes of `n` written in decimal, without leading zeros.
pub open spec fn decimal_bytes(n: nat) -> Seq<u8>
    decreases n,
{
    if n < 10 {
        seq![(48 + n) as u8]
    } else {
        decimal_bytes(n / 10).push((48 + n % 10) as u8)
    }
}

/// The ASCII bytes of `i` written in decimal, with a leading `-` when negative.
pub open spec fn signed_decimal_bytes(i: int) -> Seq<u8> {
    if i < 0 {
        seq![45u8] + decimal_bytes((-i) as nat)
    } else {
        decimal_bytes(i as nat)
    }
}

/// The characters of `n` written in decimal, without leading zeros.
pub open spec fn decimal_chars(n: nat) -> Seq<char>
    decreases n,
{
    if n < 10 {
        seq![((48 + n) as u8) as char]
    } else {
        decimal_chars(n / 10).push(((48 + n % 10) as u8) as char)
    }
}

/// Appends the decimal digits of `n` to `out`.
pub fn push_decimal(out: &mut Vec<u8>, n: u64)
    ensures
        final(out)@ == old(out)@ + decimal_bytes(n as nat),
    decreases n,
{
    if n >= 10 {
        push_decimal(out, n / 10);
    }
    let digit: u8 = (n % 10) as u8;
    out.push(48 + digit);
    proof {
        if n < 10 {
            assert(old(out)@.push((48 + n) as u8) =~= old(out)@ + seq![(48 + n) as u8]);
        } else {
            assert(old(out)@ + decimal_bytes(n as nat) =~= (old(out)@ + decimal_bytes(
                (n / 10) as nat,
            )).push((48 + n % 10) as u8));
        }
    }
}

/// Appends `value` in decimal to `out`, with a leading `-` when negative.
pub fn push_signed_decimal(out: &mut Vec<u8>, value: i32)
    ensures
        final(out)@ == old(out)@ + signed_decimal_bytes(value as int),
{
    if value < 0 {
        out.push(45);
        let wide: i64 = value as i64;
        let magnitude: u64 = (-wide) as u64;
        push_decimal(out, magnitude);
        assert(old(out)@.push(45u8) + decimal_bytes(magnitude as nat) =~= old(out)@ + (seq![45u8]
            + decimal_bytes((-(value as int)) as nat)));
    } else {
        push_decimal(out, value as u64);
    }
}

/// The one-character string of a decimal digit.
fn digit_str(d: u64) -> (r: &'static str)
    requires
        d < 10,
    ensures
        r@ == seq![((48 + d) as u8) as char],
{
    proof {
        reveal_strlit("0");
        reveal_strlit("1");
        reveal_strlit("2");
        reveal_strlit("3");
        reveal_strlit("4");
        reveal_strlit("5");
        reveal_strlit("6");
        reveal_strlit("7");
        reveal_strlit("8");
        reveal_strlit("9");
    }
    if d == 0 {
        "0"
    } else if d == 1 {
        "1"
    } else if d == 2 {
        "2"
    } else if d == 3 {
        "3"
    } else if d == 4 {
        "4"
    } else if d == 5 {
        "5"
    } else if d == 6 {
        "6"
    } else if d == 7 {
        "7"
    } else if d == 8 {
        "8"
    } else {
        "9"
    }
}

/// Appends the decimal digits of `n` to `s`.
pub fn append_decimal(s: &mut String, n: u64)
    ensures
        final(s)@ == old(s)@ + decimal_chars(n as nat),
    decreases n,
{
    if n >= 10 {
        append_decimal(s, n / 10);
    }
    s.append(digit_str(n % 10));
    proof {
        if n < 10 {
            assert(old(s)@ + seq![((48 + n) as u8) as char] =~= old(s)@ + decimal_chars(n as nat));
        } else {
            assert(old(s)@ + decimal_chars(n as nat) =~= (old(s)@ + decimal_chars(
                (n / 10) as nat,
            )) + seq![((48 + n % 10) as u8) as char]);
        }
    }
}

} // verus!
