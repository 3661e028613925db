//! Decimal numbers kept as their exact text.
//!
//! A coordinate is written in a URL as decimal text and is only turned into a
//! binary float at the edge of the program; the library reasons about the text.
use vstd::prelude::*;

verus! {

pub open spec fn is_ascii_digit(c: char) -> bool {
    '0' <= c && c <= '9'
}

/// A non-empty run of ASCII digits.
pub open spec fn is_digits(s: Seq<char>) -> bool {
    s.len() > 0 && forall|i: int| 0 <= i < s.len() ==> is_ascii_digit(#[trigger] s[i])
}

/// Digits, optionally followed by a point and more digits.
pub open spec fn is_unsigned_decimal(s: Seq<char>) -> bool {
    is_digits(s) || exists|k: int|
        0 < k < s.len() && #[trigger] s[k] == '.' && is_digits(s.take(k)) && is_digits(s.skip(k + 1))
}

/// `-?[0-9]+(\.[0-9]+)?`: plain decimal text, which a float parser accepts.
pub open spec fn is_decimal(s: Seq<char>) -> bool {
    if s.len() > 0 && s[0] == '-' {
        is_unsigned_decimal(s.skip(1))
    } else {
        is_unsigned_decimal(s)
    }
}

/// A decimal whose every digit is zero (`0`, `-0`, `0.00`): the value zero.
pub open spec fn is_zero_decimal(s: Seq<char>) -> bool {
    is_decimal(s) && forall|i: int| 0 <= i < s.len() && is_ascii_digit(#[trigger] s[i]) ==> s[i] == '0'
}

fn all_digits_between(s: &str, lo: usize, hi: usize) -> (r: bool)
    requires
        lo <= hi <= s@.len(),
    ensures
        r == (forall|i: int| lo <= i < hi ==> is_ascii_digit(#[trigger] s@[i])),
{
    let mut i: usize = lo;
    while i < hi
        invariant
            lo <= i <= hi <= s@.len(),
            forall|j: int| lo <= j < i ==> is_ascii_digit(#[trigger] s@[j]),
        decreases hi - i,
    {
        let c = s.get_char(i);
        if !('0' <= c && c <= '9') {
            return false;
        }
        i = i + 1;
    }
    true
}

/// Whether `s` is decimal text, as `is_decimal` describes it.
pub fn check_decimal(s: &str) -> (r: bool)
    ensures
        r == is_decimal(s@),
{
    let n = s.unicode_len();
    let start: usize = if n > 0 && s.get_char(0) == '-' { 1 } else { 0 };
    let ghost body = if start == 1 { s@.skip(1) } else { s@ };
    assert(body =~= s@.skip(start as int));
    // the first point after `start`, or `n`
    let mut p: usize = start;
    while p < n && s.get_char(p) != '.'
        invariant
            start <= p <= n,
            n == s@.len(),
            forall|j: int| start <= j < p ==> #[trigger] s@[j] != '.',
        decreases n - p,
    {
        p = p + 1;
    }
    let r = if p == n {
        p > start && all_digits_between(s, start, n)
    } else {
        p > start && p + 1 < n && all_digits_between(s, start, p) && all_digits_between(s, p + 1, n)
    };
    proof {
        let k = p - start;
        if p == n {
            if r {
                assert(is_digits(body));
            } else {
                if p > start {
                    let j = choose|j: int| start <= j < n && !is_ascii_digit(#[trigger] s@[j]);
                    assert(body[j - start] == s@[j]);
                }
                assert(!is_digits(body));
                assert forall|kk: int| 0 < kk < body.len() implies !(#[trigger] body[kk] == '.') by {
                    assert(body[kk] == s@[kk + start]);
                }
            }
        } else {
            assert(body[k] == '.');
            assert(!is_digits(body)) by {
                assert(!is_ascii_digit(body[k]));
            }
            if r {
                assert(is_digits(body.take(k)));
                assert(body.skip(k + 1) =~= s@.skip(p + 1));
                assert(is_digits(body.skip(k + 1)));
            } else {
                assert forall|kk: int|
                    0 < kk < body.len() && #[trigger] body[kk] == '.' && is_digits(body.take(kk))
                    implies !is_digits(body.skip(kk + 1)) by {
                    if kk < k {
                        assert(body[kk] == s@[kk + start]);
                    } else if kk > k {
                        assert(body.take(kk)[k] == '.');
                    } else {
                        if is_digits(body.skip(kk + 1)) {
                            assert forall|j: int| start <= j < p implies is_ascii_digit(#[trigger] s@[j]) by {
                                assert(body.take(kk)[j - start] == s@[j]);
                            }
                            assert forall|j: int| p + 1 <= j < n implies is_ascii_digit(#[trigger] s@[j]) by {
                                assert(body.skip(kk + 1)[j - p - 1] == s@[j]);
                            }
                        }
                    }
                }
            }
        }
    }
    r
}

/// Whether `s` is decimal text for zero.
pub fn check_zero_decimal(s: &str) -> (r: bool)
    ensures
        r == is_zero_decimal(s@),
{
    if !check_decimal(s) {
        return false;
    }
    let n = s.unicode_len();
    let mut i: usize = 0;
    while i < n
        invariant
            n == s@.len(),
            i <= n,
            forall|j: int| 0 <= j < i && is_ascii_digit(#[trigger] s@[j]) ==> s@[j] == '0',
        decreases n - i,
    {
        let c = s.get_char(i);
        if '1' <= c && c <= '9' {
            return false;
        }
        i = i + 1;
    }
    true
}

/// A number held as its decimal text (`-25.0`, `151.2`).
pub struct Decimal {
    text: String,
}

impl View for Decimal {
    type V = Seq<char>;

    closed spec fn view(&self) -> Seq<char> {
        self.text@
    }
}

impl Decimal {
    #[verifier::type_invariant]
    spec fn well_formed(&self) -> bool {
        is_decimal(self.text@)
    }

    /// The decimal that `s` writes, if it is decimal text.
    pub fn parse(s: &str) -> (r: Option<Decimal>)
        ensures
            r is Some <==> is_decimal(s@),
            r matches Some(d) ==> d@ == s@,
    {
        if check_decimal(s) {
            Some(Decimal { text: String::from_str(s) })
        } else {
            None
        }
    }

    pub fn as_str(&self) -> (r: &str)
        ensures
            r@ == self@,
            is_decimal(r@),
    {
        proof {
            use_type_invariant(self);
        }
        self.text.as_str()
    }

    pub fn duplicate(&self) -> (r: Decimal)
        ensures
            r@ == self@,
    {
        proof {
            use_type_invariant(self);
        }
        Decimal { text: self.text.clone() }
    }

    pub fn is_zero(&self) -> (r: bool)
        ensures
            r == is_zero_decimal(self@),
    {
        check_zero_decimal(self.as_str())
    }
}

} // verus!
