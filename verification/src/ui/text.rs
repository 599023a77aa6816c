//! Verified decimal rendering of counters for display.

use vstd::prelude::*;

verus! {

/// Relies on `String::push`: it appends the given character to the end
/// of the string.
pub assume_specification[ String::push ](s: &mut String, ch: char)
    ensures
        final(s)@ == old(s)@.push(ch),
;

/// The digit character denoting `d`.
pub open spec fn spec_digit(d: int) -> char {
    if d == 0 {
        '0'
    } else if d == 1 {
        '1'
    } else if d == 2 {
        '2'
    } else if d == 3 {
        '3'
    } else if d == 4 {
        '4'
    } else if d == 5 {
        '5'
    } else if d == 6 {
        '6'
    } else if d == 7 {
        '7'
    } else if d == 8 {
        '8'
    } else {
        '9'
    }
}

/// The decimal digits of `n`, most significant first; empty for zero.
pub open spec fn spec_dec_rec(n: int) -> Seq<char>
    decreases n,
{
    if n <= 0 {
        Seq::empty()
    } else {
        spec_dec_rec(n / 10) + seq![spec_digit(n % 10)]
    }
}

/// The decimal rendering of `n`: its digits, most significant first,
/// with zero rendered as one zero digit.
pub open spec fn spec_dec(n: int) -> Seq<char> {
    if n == 0 {
        seq!['0']
    } else {
        spec_dec_rec(n)
    }
}

/// A run of `k` zero digits.
pub open spec fn spec_zeros(k: int) -> Seq<char>
    decreases k,
{
    if k <= 0 {
        Seq::empty()
    } else {
        spec_zeros(k - 1) + seq!['0']
    }
}

/// The decimal rendering of `n` left-padded with zero digits to at least
/// `width` characters.
pub open spec fn spec_padded_dec(n: int, width: int) -> Seq<char> {
    spec_zeros(width - spec_dec(n).len()) + spec_dec(n)
}

/// The digit character denoting `d`.
fn digit_char(d: u64) -> (c: char)
    requires
        d < 10,
    ensures
        c == spec_digit(d as int),
{
    match d {
        0 => '0',
        1 => '1',
        2 => '2',
        3 => '3',
        4 => '4',
        5 => '5',
        6 => '6',
        7 => '7',
        8 => '8',
        _ => '9',
    }
}

/// Appends the decimal digits of `n`, most significant first, to `out`;
/// appends nothing for zero.
fn push_dec_rec(n: u64, out: &mut String)
    ensures
        final(out)@ == old(out)@ + spec_dec_rec(n as int),
    decreases n,
{
    if n == 0 {
        proof {
            assert(out@ =~= out@ + spec_dec_rec(0));
        }
        return ;
    }
    push_dec_rec(n / 10, out);
    out.push(digit_char(n % 10));
    proof {
        assert(final(out)@ =~= old(out)@ + spec_dec_rec(n as int));
    }
}

/// Renders `n` in decimal.
pub fn dec_string(n: u64) -> (r: String)
    ensures
        r@ == spec_dec(n as int),
{
    let mut out = String::new();
    if n == 0 {
        out.push('0');
        proof {
            assert(out@ =~= seq!['0']);
        }
        return out;
    }
    push_dec_rec(n, &mut out);
    proof {
        assert(out@ =~= spec_dec_rec(n as int));
    }
    out
}

/// The number of decimal digits of `n`; one for zero.
fn dec_len(n: u64) -> (r: usize)
    ensures
        r == spec_dec(n as int).len(),
{
    if n == 0 {
        return 1;
    }
    let mut count: usize = 0;
    let mut m = n;
    while m > 0
        invariant
            spec_dec_rec(m as int).len() + count == spec_dec_rec(n as int).len(),
            count <= 20,
            m <= n,
        decreases m,
    {
        count = count + 1;
        proof {
            lemma_dec_rec_len_bound(n as int);
        }
        m = m / 10;
    }
    count
}

/// Ten to the `k`.
pub open spec fn spec_pow10(k: nat) -> int
    decreases k,
{
    if k == 0 {
        1
    } else {
        10 * spec_pow10((k - 1) as nat)
    }
}

/// A number below ten to the `k` renders in at most `k` digits.
proof fn lemma_dec_rec_len_le(n: int, k: nat)
    requires
        0 <= n,
        n < spec_pow10(k),
    ensures
        spec_dec_rec(n).len() <= k,
    decreases n,
{
    if n > 0 {
        assert(k > 0);
        assert(n / 10 < spec_pow10((k - 1) as nat)) by (nonlinear_arith)
            requires
                n < 10 * spec_pow10((k - 1) as nat),
                0 <= n,
        ;
        lemma_dec_rec_len_le(n / 10, (k - 1) as nat);
    }
}

/// A counter's decimal rendering never exceeds twenty digits.
proof fn lemma_dec_rec_len_bound(n: int)
    requires
        0 <= n <= u64::MAX,
    ensures
        spec_dec_rec(n).len() <= 20,
{
    assert(spec_pow10(20) == 100000000000000000000int) by {
        reveal_with_fuel(spec_pow10, 21);
    }
    lemma_dec_rec_len_le(n, 20);
}

/// Renders `n` in decimal, left-padded with zero digits to at least
/// `width` characters.
pub fn padded_dec_string(n: u64, width: usize) -> (r: String)
    ensures
        r@ == spec_padded_dec(n as int, width as int),
{
    let len = dec_len(n);
    let mut out = String::new();
    let mut pad: usize = if len < width {
        width - len
    } else {
        0
    };
    proof {
        assert(out@ =~= spec_zeros(0));
        if len >= width {
            assert(spec_zeros(width - spec_dec(n as int).len()) =~= spec_zeros(0));
        }
    }
    let ghost target = if len < width {
        width - len
    } else {
        0int
    };
    let mut done: usize = 0;
    while done < pad
        invariant
            pad == target,
            0 <= done <= pad,
            out@ == spec_zeros(done as int),
        decreases pad - done,
    {
        out.push('0');
        proof {
            assert(out@ =~= spec_zeros(done + 1));
        }
        done = done + 1;
    }
    if n == 0 {
        out.push('0');
        proof {
            assert(out@ =~= spec_zeros(target) + seq!['0']);
            assert(spec_zeros(target) =~= spec_zeros(width - spec_dec(n as int).len()));
        }
    } else {
        push_dec_rec(n, &mut out);
        proof {
            assert(out@ =~= spec_zeros(target) + spec_dec_rec(n as int));
            assert(spec_zeros(target) =~= spec_zeros(width - spec_dec(n as int).len()));
        }
    }
    proof {
        assert(out@ =~= spec_padded_dec(n as int, width as int));
    }
    out
}

} // verus!
