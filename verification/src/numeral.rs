//! Decimal numerals: how numbers are written on the wire.

use vstd::prelude::*;

verus! {

/// The ASCII digit for `d` in `0..=9`.
pub open spec fn digit(d: int) -> u8 {
    ('0' as u8 + d) as u8
}

/// `b` is an ASCII digit.
pub open spec fn is_digit(b: u8) -> bool {
    '0' as u8 <= b <= '9' as u8
}

/// The decimal numeral of `n`, without leading zeros.
pub open spec fn decimal(n: nat) -> Seq<u8>
    decreases n,
{
    if n < 10 {
        seq![digit(n as int)]
    } else {
        decimal(n / 10).push(digit((n % 10) as int))
    }
}

/// The decimal numeral of `v`, with a minus sign if it is negative.
pub open spec fn signed_decimal(v: int) -> Seq<u8> {
    if v < 0 {
        seq!['-' as u8] + decimal((-v) as nat)
    } else {
        decimal(v as nat)
    }
}

/// `s` is one digit or more, and nothing else.
pub open spec fn all_digits(s: Seq<u8>) -> bool {
    &&& s.len() > 0
    &&& forall|i: int| 0 <= i < s.len() ==> is_digit(#[trigger] s[i])
}

/// `s` is digits, a point and digits, the point at offset `dot`.
pub open spec fn is_fraction_at(s: Seq<u8>, dot: int) -> bool {
    &&& 0 <= dot < s.len()
    &&& s[dot] == '.' as u8
    &&& all_digits(s.take(dot))
    &&& all_digits(s.skip(dot + 1))
}

/// `s` is an unsigned numeral: digits, optionally followed by a point and
/// more digits.
pub open spec fn is_unsigned_numeral(s: Seq<u8>) -> bool {
    all_digits(s) || exists|dot: int| is_fraction_at(s, dot)
}

/// `s` is the numeral of a finite number: an unsigned numeral with an
/// optional minus sign in front.
pub open spec fn is_numeral(s: Seq<u8>) -> bool {
    is_unsigned_numeral(s) || (s.len() > 0 && s[0] == '-' as u8 && is_unsigned_numeral(s.skip(1)))
}

/// The numeral of a natural number is made of digits.
pub proof fn lemma_decimal_is_digits(n: nat)
    ensures
        all_digits(decimal(n)),
    decreases n,
{
    if n >= 10 {
        lemma_decimal_is_digits(n / 10);
    }
}

/// The numeral of an integer is a numeral.
pub proof fn lemma_signed_decimal_is_numeral(v: int)
    ensures
        is_numeral(signed_decimal(v)),
{
    if v < 0 {
        lemma_decimal_is_digits((-v) as nat);
        assert(signed_decimal(v).skip(1) =~= decimal((-v) as nat));
    } else {
        lemma_decimal_is_digits(v as nat);
    }
}

/// Appends the numeral of `n` to `out`.
pub fn push_decimal(out: &mut Vec<u8>, n: u64)
    ensures
        final(out)@ == old(out)@ + decimal(n as nat),
    decreases n,
{
    if n >= 10 {
        push_decimal(out, n / 10);
    }
    let low: u8 = (n % 10) as u8;
    out.push('0' as u8 + low);
    proof {
        assert(out@ =~= old(out)@ + decimal(n as nat));
    }
}

/// Appends the numeral of `v` to `out`.
pub fn push_signed_decimal(out: &mut Vec<u8>, v: i64)
    ensures
        final(out)@ == old(out)@ + signed_decimal(v as int),
{
    if v < 0 {
        out.push('-' as u8);
        let magnitude: u64 = (-(v + 1)) as u64 + 1;
        push_decimal(out, magnitude);
        proof {
            assert(out@ =~= old(out)@ + signed_decimal(v as int));
        }
    } else {
        push_decimal(out, v as u64);
    }
}

/// Tells whether `text[from..]` is one digit or more, and nothing else.
fn digits_from(text: &[u8], from: usize) -> (ok: bool)
    requires
        from <= text@.len(),
    ensures
        ok == all_digits(text@.skip(from as int)),
{
    if from == text.len() {
        return false;
    }
    let mut i: usize = from;
    while i < text.len()
        invariant
            from <= i <= text@.len(),
            forall|k: int| from <= k < i ==> is_digit(#[trigger] text@[k]),
        decreases text@.len() - i,
    {
        if !(text[i] >= '0' as u8 && text[i] <= '9' as u8) {
            proof {
                assert(text@.skip(from as int)[i - from] == text@[i as int]);
            }
            return false;
        }
        i = i + 1;
    }
    proof {
        assert forall|k: int| 0 <= k < text@.skip(from as int).len() implies is_digit(
            #[trigger] text@.skip(from as int)[k],
        ) by {
            assert(text@.skip(from as int)[k] == text@[from + k]);
        }
    }
    true
}

/// Tells whether `text[from..]` is an unsigned numeral.
fn unsigned_numeral_from(text: &[u8], from: usize) -> (ok: bool)
    requires
        from <= text@.len(),
    ensures
        ok == is_unsigned_numeral(text@.skip(from as int)),
{
    let ghost tail = text@.skip(from as int);
    let mut i: usize = from;
    while i < text.len() && text[i] >= '0' as u8 && text[i] <= '9' as u8
        invariant
            from <= i <= text@.len(),
            tail == text@.skip(from as int),
            forall|k: int| 0 <= k < i - from ==> is_digit(#[trigger] tail[k]),
        decreases text@.len() - i,
    {
        proof {
            assert(tail[i - from] == text@[i as int]);
        }
        i = i + 1;
    }
    if i == text.len() {
        // Digits to the end: a numeral unless there is none at all.
        proof {
            assert forall|dot: int| !is_fraction_at(tail, dot) by {
                if 0 <= dot < tail.len() {
                    assert(is_digit(tail[dot]));
                }
            }
        }
        return i > from;
    }
    proof {
        assert(tail[i - from] == text@[i as int]);
        assert(!all_digits(tail));
        // Only the first byte that is no digit can be the point.
        assert forall|dot: int| dot != i - from implies !is_fraction_at(tail, dot) by {
            if 0 <= dot < tail.len() && dot < i - from {
                assert(is_digit(tail[dot]));
            } else if 0 <= dot < tail.len() && all_digits(tail.take(dot)) {
                assert(tail.take(dot)[i - from] == tail[i - from]);
            }
        }
    }
    if text[i] != '.' as u8 || i == from {
        proof {
            assert(!is_fraction_at(tail, i - from)) by {
                if i == from {
                    assert(tail.take(0).len() == 0);
                }
            }
        }
        return false;
    }
    let rest: bool = digits_from(text, i + 1);
    proof {
        assert(tail.skip(i - from + 1) =~= text@.skip(i + 1));
        assert(all_digits(tail.take(i - from))) by {
            assert forall|k: int| 0 <= k < tail.take(i - from).len() implies is_digit(
                #[trigger] tail.take(i - from)[k],
            ) by {
                assert(tail.take(i - from)[k] == tail[k]);
            }
        }
        if rest {
            assert(is_fraction_at(tail, i - from));
        }
    }
    rest
}

/// Tells whether `text` is the numeral of a finite number.
pub fn check_numeral(text: &[u8]) -> (ok: bool)
    ensures
        ok == is_numeral(text@),
{
    proof {
        assert(text@.skip(0) =~= text@);
    }
    if unsigned_numeral_from(text, 0) {
        return true;
    }
    if text.len() > 0 && text[0] == '-' as u8 {
        unsigned_numeral_from(text, 1)
    } else {
        false
    }
}

} // verus!
