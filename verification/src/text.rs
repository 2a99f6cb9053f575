//! Decimal rendering of integers, as `{}` and `{:0width}` print them.
use vstd::prelude::*;

verus! {

/// The character of a decimal digit.
pub open spec fn digit_char(d: nat) -> char {
    if d == 0 {
        '0'
    } else if d == 1 {
        '1'
    } else if d == 2 {
        '2'
    } else if d == 3 {
        '3'
    } else if d == 4 {
        '4'
    } else if d == 5 {
        '5'
    } else if d == 6 {
        '6'
    } else if d == 7 {
        '7'
    } else if d == 8 {
        '8'
    } else {
        '9'
    }
}

/// The decimal digits of `n`, most significant first, without leading zeros.
pub open spec fn decimal_digits(n: nat) -> Seq<char>
    decreases n,
{
    if n < 10 {
        seq![digit_char(n)]
    } else {
        decimal_digits(n / 10).push(digit_char(n % 10))
    }
}

/// The magnitude of an integer.
pub open spec fn magnitude(i: int) -> nat {
    if i < 0 {
        (-i) as nat
    } else {
        i as nat
    }
}

/// The sign of an integer as it is printed: `-` for a negative one, nothing otherwise.
pub open spec fn sign_text(i: int) -> Seq<char> {
    if i < 0 {
        seq!['-']
    } else {
        Seq::empty()
    }
}

/// `i` printed in decimal.
pub open spec fn decimal_text(i: int) -> Seq<char> {
    sign_text(i) + decimal_digits(magnitude(i))
}

/// `n` zero characters.
pub open spec fn zeros(n: nat) -> Seq<char> {
    Seq::new(n, |_k: int| '0')
}

/// `i` printed in decimal and padded with zeros after the sign to at least
/// `width` characters.
pub open spec fn zero_padded_text(i: int, width: nat) -> Seq<char> {
    let body = decimal_digits(magnitude(i));
    let used = sign_text(i).len() + body.len();
    let pad: nat = if used < width {
        (width - used) as nat
    } else {
        0
    };
    sign_text(i) + zeros(pad) + body
}

spec fn pow10(k: nat) -> nat
    decreases k,
{
    if k == 0 {
        1
    } else {
        10 * pow10((k - 1) as nat)
    }
}

proof fn lemma_digits_len(n: nat, k: nat)
    requires
        n < pow10(k),
        k >= 1,
    ensures
        1 <= decimal_digits(n).len() <= k,
        n < 10 ==> decimal_digits(n).len() == 1,
        n >= 10 ==> decimal_digits(n).len() == decimal_digits(n / 10).len() + 1,
    decreases k,
{
    if n >= 10 {
        assert(k >= 2) by {
            if k == 1 {
                assert(pow10(1) == 10) by {
                    reveal_with_fuel(pow10, 2);
                }
            }
        }
        assert(n / 10 < pow10((k - 1) as nat));
        lemma_digits_len(n / 10, (k - 1) as nat);
    }
}

fn digit_str(d: u64) -> (s: &'static str)
    requires
        d < 10,
    ensures
        s@ == seq![digit_char(d as nat)],
{
    if d == 0 {
        proof {
            reveal_strlit("0");
        }
        "0"
    } else if d == 1 {
        proof {
            reveal_strlit("1");
        }
        "1"
    } else if d == 2 {
        proof {
            reveal_strlit("2");
        }
        "2"
    } else if d == 3 {
        proof {
            reveal_strlit("3");
        }
        "3"
    } else if d == 4 {
        proof {
            reveal_strlit("4");
        }
        "4"
    } else if d == 5 {
        proof {
            reveal_strlit("5");
        }
        "5"
    } else if d == 6 {
        proof {
            reveal_strlit("6");
        }
        "6"
    } else if d == 7 {
        proof {
            reveal_strlit("7");
        }
        "7"
    } else if d == 8 {
        proof {
            reveal_strlit("8");
        }
        "8"
    } else {
        proof {
            reveal_strlit("9");
        }
        "9"
    }
}

fn push_digits(s: &mut String, n: u64)
    ensures
        final(s)@ == old(s)@ + decimal_digits(n as nat),
    decreases n,
{
    if n >= 10 {
        push_digits(s, n / 10);
    }
    s.append(digit_str(n % 10));
}

fn digit_count(n: u64) -> (c: usize)
    ensures
        c == decimal_digits(n as nat).len(),
        c <= 20,
    decreases n,
{
    proof {
        reveal_with_fuel(pow10, 21);
        assert(pow10(20) == 100_000_000_000_000_000_000);
        lemma_digits_len(n as nat, 20);
    }
    if n < 10 {
        1
    } else {
        let c = digit_count(n / 10);
        c + 1
    }
}

fn magnitude_u64(i: i64) -> (m: u64)
    ensures
        m == magnitude(i as int),
{
    if i < 0 {
        ((-(i + 1)) as u64) + 1
    } else {
        i as u64
    }
}

fn push_sign(s: &mut String, i: i64)
    ensures
        final(s)@ == old(s)@ + sign_text(i as int),
{
    if i < 0 {
        proof {
            reveal_strlit("-");
        }
        s.append("-");
    } else {
        assert(old(s)@ + sign_text(i as int) =~= old(s)@);
    }
}

/// Renders `i` in decimal, as `format!("{}", i)` does.
pub fn decimal_string(i: i64) -> (s: String)
    ensures
        s@ == decimal_text(i as int),
{
    let mut s = String::new();
    push_sign(&mut s, i);
    push_digits(&mut s, magnitude_u64(i));
    assert(s@ =~= decimal_text(i as int));
    s
}

/// Renders `i` in decimal padded with zeros after the sign to at least
/// `width` characters, as `format!("{:0width$}", i)` does.
pub fn zero_padded_string(i: i64, width: usize) -> (s: String)
    ensures
        s@ == zero_padded_text(i as int, width as nat),
{
    let m = magnitude_u64(i);
    let body_len = digit_count(m);
    let sign_len: usize = if i < 0 {
        1
    } else {
        0
    };
    let mut s = String::new();
    push_sign(&mut s, i);
    let used = sign_len + body_len;
    let pad: usize = if used < width {
        width - used
    } else {
        0
    };
    let mut k: usize = 0;
    while k < pad
        invariant
            k <= pad,
            s@ == sign_text(i as int) + zeros(k as nat),
        decreases pad - k,
    {
        proof {
            reveal_strlit("0");
        }
        s.append("0");
        k = k + 1;
        assert(s@ =~= sign_text(i as int) + zeros(k as nat));
    }
    push_digits(&mut s, m);
    assert(s@ =~= zero_padded_text(i as int, width as nat));
    s
}

} // verus!
