//! Reading a startup parameter, written as a decimal number, into the
//! fixed-point steps of its quantity.
//!
//! The accepted text is an optional `-`, then digits, then optionally a `.`
//! and more digits, with at least one digit in all. With `k` decimal places
//! per step, digits past the `k`-th after the point are dropped, so the value
//! is rounded toward zero.
use vstd::prelude::*;

verus! {

pub open spec fn is_digit(b: u8) -> bool {
    48 <= b <= 57
}

pub open spec fn all_digits(s: Seq<u8>) -> bool {
    forall|i: int| 0 <= i < s.len() ==> is_digit(#[trigger] s[i])
}

/// The number that the digits `s` write, most significant first.
pub open spec fn digits_value(s: Seq<u8>) -> int
    decreases s.len(),
{
    if s.len() == 0 {
        0
    } else {
        digits_value(s.drop_last()) * 10 + (s.last() - 48)
    }
}

/// Where the run of digits that starts at `i` ends.
pub open spec fn run_end(s: Seq<u8>, i: int) -> int
    decreases s.len() - i,
{
    if 0 <= i < s.len() && is_digit(s[i]) {
        run_end(s, i + 1)
    } else {
        i
    }
}

pub open spec fn is_negative(s: Seq<u8>) -> bool {
    s.len() > 0 && s[0] == 45
}

pub open spec fn sign_len(s: Seq<u8>) -> int {
    if is_negative(s) {
        1
    } else {
        0
    }
}

pub open spec fn int_end(s: Seq<u8>) -> int {
    run_end(s, sign_len(s))
}

pub open spec fn has_point(s: Seq<u8>) -> bool {
    int_end(s) < s.len() && s[int_end(s)] == 46
}

pub open spec fn frac_end(s: Seq<u8>) -> int {
    run_end(s, int_end(s) + 1)
}

/// The digits before the point.
pub open spec fn int_digits(s: Seq<u8>) -> Seq<u8> {
    s.subrange(sign_len(s), int_end(s))
}

/// The digits after the point, empty when there is no point.
pub open spec fn frac_digits(s: Seq<u8>) -> Seq<u8> {
    if has_point(s) {
        s.subrange(int_end(s) + 1, frac_end(s))
    } else {
        Seq::empty()
    }
}

/// Whether `s` is a decimal number of the accepted form.
pub open spec fn is_decimal(s: Seq<u8>) -> bool {
    &&& if has_point(s) {
        frac_end(s) == s.len()
    } else {
        int_end(s) == s.len()
    }
    &&& int_digits(s).len() + frac_digits(s).len() >= 1
}

/// `f` cut or filled with zeros to exactly `k` digits.
pub open spec fn padded(f: Seq<u8>, k: nat) -> Seq<u8> {
    if f.len() >= k {
        f.take(k as int)
    } else {
        f + Seq::new((k - f.len()) as nat, |i: int| 48u8)
    }
}

/// The size of the value of `s` counted in steps of `10^-k`, rounded toward
/// zero.
pub open spec fn magnitude(s: Seq<u8>, k: nat) -> int {
    digits_value(int_digits(s) + padded(frac_digits(s), k))
}

/// The value of `s` in steps of `10^-k`, with its sign.
pub open spec fn signed_steps(s: Seq<u8>, k: nat) -> int {
    if is_negative(s) {
        -magnitude(s, k)
    } else {
        magnitude(s, k)
    }
}

/// Whether `s` reads as a decimal whose value in steps of `10^-k` fits in
/// an `i64`.
pub open spec fn parses(s: Seq<u8>, k: nat) -> bool {
    is_decimal(s) && magnitude(s, k) <= i64::MAX
}

proof fn lemma_run_end(s: Seq<u8>, i: int)
    requires
        0 <= i <= s.len(),
    ensures
        i <= run_end(s, i) <= s.len(),
        forall|j: int| i <= j < run_end(s, i) ==> is_digit(#[trigger] s[j]),
        run_end(s, i) < s.len() ==> !is_digit(s[run_end(s, i)]),
    decreases s.len() - i,
{
    if i < s.len() && is_digit(s[i]) {
        lemma_run_end(s, i + 1);
    }
}

proof fn lemma_value_step(q: Seq<u8>, n: int)
    requires
        0 <= n < q.len(),
    ensures
        digits_value(q.take(n + 1)) == digits_value(q.take(n)) * 10 + (q[n] - 48),
{
    assert(q.take(n + 1).drop_last() =~= q.take(n));
}

proof fn lemma_value_grows(q: Seq<u8>, n: int, m: int)
    requires
        all_digits(q),
        0 <= n <= m <= q.len(),
    ensures
        0 <= digits_value(q.take(n)) <= digits_value(q.take(m)),
    decreases m,
{
    if m == 0 {
        assert(q.take(0) =~= Seq::<u8>::empty());
    } else {
        lemma_value_grows(q, if n < m { n } else { m - 1 }, m - 1);
        lemma_value_step(q, m - 1);
        assert(is_digit(q[m - 1]));
    }
}

fn is_digit_byte(b: u8) -> (r: bool)
    ensures
        r == is_digit(b),
{
    48 <= b && b <= 57
}

/// `v` with the digit `d` written after it, if that fits.
fn push_digit(v: i64, d: i64) -> (r: Option<i64>)
    requires
        v >= 0,
        0 <= d <= 9,
    ensures
        match r {
            Some(w) => w == v * 10 + d,
            None => v * 10 + d > i64::MAX,
        },
{
    match v.checked_mul(10) {
        Some(m) => m.checked_add(d),
        None => None,
    }
}

/// Reads `text` as a decimal number in steps of `10^-places`, rounding
/// toward zero. Gives `None` when `text` is not of the accepted form or its
/// value does not fit in an `i64`.
pub fn parse_steps(text: &[u8], places: u32) -> (r: Option<i64>)
    ensures
        match r {
            Some(v) => {
                &&& is_decimal(text@)
                &&& magnitude(text@, places as nat) <= i64::MAX
                &&& v == signed_steps(text@, places as nat)
            },
            None => !is_decimal(text@) || magnitude(text@, places as nat) > i64::MAX,
        },
{
    let ghost s = text@;
    let len = text.len();
    let neg = len > 0 && text[0] == 45;
    let start: usize = if neg {
        1
    } else {
        0
    };
    proof {
        lemma_run_end(s, start as int);
    }
    let mut i: usize = start;
    while i < len && is_digit_byte(text[i])
        invariant
            s == text@,
            len == s.len(),
            start <= i <= len,
            run_end(s, i as int) == run_end(s, start as int),
        decreases len - i,
    {
        i = i + 1;
    }
    let point_at = i;
    assert(point_at == int_end(s));
    let point = point_at < len && text[point_at] == 46;
    let mut digits_end = point_at;
    if point {
        proof {
            lemma_run_end(s, point_at as int + 1);
        }
        i = point_at + 1;
        while i < len && is_digit_byte(text[i])
            invariant
                s == text@,
                len == s.len(),
                point_at + 1 <= i <= len,
                run_end(s, i as int) == run_end(s, point_at as int + 1),
            decreases len - i,
        {
            i = i + 1;
        }
        digits_end = i;
        if digits_end != len {
            return None;
        }
    } else if point_at != len {
        return None;
    }
    let int_len = point_at - start;
    let frac_len = if point {
        digits_end - point_at - 1
    } else {
        0
    };
    if int_len == 0 && frac_len == 0 {
        return None;
    }
    let ghost f = frac_digits(s);
    let ghost q = int_digits(s) + padded(f, places as nat);
    assert(f.len() == frac_len);
    assert(all_digits(q));
    assert(forall|k: int| 0 <= k < int_len ==> q[k] == s[start + k]);
    assert forall|k: int| 0 <= k < places implies #[trigger] q[int_len + k] == if k < frac_len {
        s[point_at + 1 + k]
    } else {
        48u8
    } by {
        assert(q[int_len + k] == padded(f, places as nat)[k]);
    }
    assert(magnitude(s, places as nat) == digits_value(q));
    let mut v: i64 = 0;
    let mut j: usize = 0;
    while j < int_len
        invariant
            s == text@,
            q == int_digits(s) + padded(f, places as nat),
            all_digits(q),
            magnitude(s, places as nat) == digits_value(q),
            len == text.len(),
            start + int_len <= len,
            int_len == int_digits(s).len(),
            forall|k: int| 0 <= k < int_len ==> q[k] == s[start + k],
            0 <= j <= int_len,
            v == digits_value(q.take(j as int)),
            v >= 0,
        decreases int_len - j,
    {
        proof {
            lemma_value_step(q, j as int);
            assert(q[j as int] == text@[start + j]);
            assert(is_digit(q[j as int]));
        }
        let d = (text[start + j] - 48) as i64;
        match push_digit(v, d) {
            Some(w) => v = w,
            None => {
                proof {
                    lemma_value_grows(q, j + 1, q.len() as int);
                    assert(q.take(q.len() as int) =~= q);
                    assert(digits_value(q.take(j + 1)) > i64::MAX);
                }
                return None;
            },
        }
        j = j + 1;
    }
    let mut t: u32 = 0;
    while t < places
        invariant
            s == text@,
            q == int_digits(s) + padded(f, places as nat),
            all_digits(q),
            magnitude(s, places as nat) == digits_value(q),
            q.len() == int_len + places,
            point ==> point_at + 1 + frac_len == len,
            !point ==> frac_len == 0,
            f.len() == frac_len,
            len == text.len(),
            point_at < len ==> point_at + 1 + frac_len <= len,
            forall|k: int|
                0 <= k < places ==> #[trigger] q[int_len + k] == if k < frac_len {
                    s[point_at + 1 + k]
                } else {
                    48u8
                },
            0 <= t <= places,
            v == digits_value(q.take(int_len + t)),
            v >= 0,
        decreases places - t,
    {
        proof {
            lemma_value_step(q, int_len + t);
            assert(is_digit(q[int_len + t]));
        }
        let d: i64 = if (t as usize) < frac_len {
            (text[point_at + 1 + t as usize] - 48) as i64
        } else {
            0
        };
        match push_digit(v, d) {
            Some(w) => v = w,
            None => {
                proof {
                    lemma_value_grows(q, int_len + t + 1, q.len() as int);
                    assert(q.take(q.len() as int) =~= q);
                    assert(digits_value(q.take(int_len + t + 1)) > i64::MAX);
                }
                return None;
            },
        }
        t = t + 1;
    }
    assert(q.take(q.len() as int) =~= q);
    if neg {
        Some(-v)
    } else {
        Some(v)
    }
}

} // verus!
