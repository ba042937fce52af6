//! Parsing a span argument of the form `start-end` (for example `3-15`)
//! into its two numbers. The text before the first `-` and the text after
//! it must each be a non-empty run of decimal digits whose value fits the
//! machine; anything else is rejected.

use vstd::prelude::*;
use vstd::string::StrSliceExecFns;

verus! {

/// Whether `c` is a decimal digit.
pub open spec fn is_ascii_digit(c: char) -> bool {
    48 <= c as u32 <= 57
}

/// The value of the decimal digit `c`.
pub open spec fn digit_val(c: char) -> nat
    recommends
        is_ascii_digit(c),
{
    (c as u32 - 48) as nat
}

/// Whether `s` is a non-empty run of decimal digits.
pub open spec fn is_digit_string(s: Seq<char>) -> bool {
    s.len() > 0 && forall|i: int| 0 <= i < s.len() ==> is_ascii_digit(#[trigger] s[i])
}

/// The number denoted by the digit run `s`, most significant digit first.
pub open spec fn digits_value(s: Seq<char>) -> nat
    decreases s.len(),
{
    if s.len() == 0 {
        0
    } else {
        digits_value(s.drop_last()) * 10 + digit_val(s.last())
    }
}

/// Whether position `i` holds the first `-` of `s`.
pub open spec fn first_dash_at(s: Seq<char>, i: int) -> bool {
    &&& 0 <= i < s.len()
    &&& s[i] == '-'
    &&& forall|j: int| 0 <= j < i ==> s[j] != '-'
}

/// Whether `s` is a well-formed span argument split at its first `-` (at
/// position `i`): decimal digits on both sides, each side's value fitting
/// `usize`.
pub open spec fn span_shape(s: Seq<char>, i: int) -> bool {
    &&& first_dash_at(s, i)
    &&& is_digit_string(s.subrange(0, i))
    &&& is_digit_string(s.subrange(i + 1, s.len() as int))
    &&& digits_value(s.subrange(0, i)) <= usize::MAX
    &&& digits_value(s.subrange(i + 1, s.len() as int)) <= usize::MAX
}

/// Longer digit prefixes denote numbers at least as large.
proof fn lemma_digits_value_mono(s: Seq<char>, i: int, j: int)
    requires
        0 <= i <= j <= s.len(),
    ensures
        digits_value(s.subrange(0, i)) <= digits_value(s.subrange(0, j)),
    decreases j - i,
{
    if i < j {
        lemma_digits_value_mono(s, i, j - 1);
        assert(s.subrange(0, j).drop_last() =~= s.subrange(0, j - 1));
        assert(digits_value(s.subrange(0, j)) == digits_value(s.subrange(0, j - 1)) * 10
            + digit_val(s.subrange(0, j).last()));
    }
}

/// Parses a non-empty run of decimal digits. Returns the denoted number
/// exactly when `s` is such a run and the number fits `usize`; returns
/// `None` otherwise.
pub fn parse_usize(s: &str) -> (r: Option<usize>)
    ensures
        r is Some <==> is_digit_string(s@) && digits_value(s@) <= usize::MAX,
        r matches Some(v) ==> v == digits_value(s@),
{
    let len = s.unicode_len();
    if len == 0 {
        return None;
    }
    let mut v: usize = 0;
    let mut i: usize = 0;
    while i < len
        invariant
            0 < len == s@.len(),
            i <= len,
            forall|j: int| 0 <= j < i ==> is_ascii_digit(#[trigger] s@[j]),
            v == digits_value(s@.subrange(0, i as int)),
        decreases len - i,
    {
        let c = s.get_char(i);
        let cv = c as u32;
        if cv < 48 || cv > 57 {
            assert(!is_ascii_digit(s@[i as int]));
            return None;
        }
        let d = (cv - 48) as usize;
        proof {
            assert(s@.subrange(0, i + 1).drop_last() =~= s@.subrange(0, i as int));
            assert(digits_value(s@.subrange(0, i + 1)) == digits_value(s@.subrange(0, i as int))
                * 10 + digit_val(s@[i as int]));
        }
        let Some(v10) = v.checked_mul(10) else {
            proof {
                lemma_digits_value_mono(s@, i + 1, s@.len() as int);
                assert(s@.subrange(0, s@.len() as int) =~= s@);
            }
            return None;
        };
        let Some(next) = v10.checked_add(d) else {
            proof {
                lemma_digits_value_mono(s@, i + 1, s@.len() as int);
                assert(s@.subrange(0, s@.len() as int) =~= s@);
            }
            return None;
        };
        v = next;
        i = i + 1;
    }
    proof {
        assert(s@.subrange(0, s@.len() as int) =~= s@);
    }
    Some(v)
}

/// Splits a span argument at its first `-` and parses both sides. Returns
/// `Some((start, end))` exactly when the argument has the shape
/// `<digits>-<digits>` with both numbers fitting `usize`; the two numbers
/// are the values of the two digit runs. An inverted span (`end < start`)
/// is still returned here — whether to accept it is the caller's policy.
pub fn parse_span(s: &str) -> (r: Option<(usize, usize)>)
    ensures
        r is Some <==> exists|i: int| span_shape(s@, i),
        r matches Some(p) ==> exists|i: int|
            {
                &&& #[trigger] span_shape(s@, i)
                &&& p.0 == digits_value(s@.subrange(0, i))
                &&& p.1 == digits_value(s@.subrange(i + 1, s@.len() as int))
            },
{
    let len = s.unicode_len();
    let mut dash: Option<usize> = None;
    let mut i: usize = 0;
    while i < len && dash.is_none()
        invariant
            len == s@.len(),
            i <= len,
            dash matches Some(d) ==> d < len && first_dash_at(s@, d as int),
            dash is None ==> forall|j: int| 0 <= j < i ==> s@[j] != '-',
        decreases len - i,
    {
        if s.get_char(i) == '-' {
            dash = Some(i);
        }
        i = i + 1;
    }
    match dash {
        None => {
            assert forall|k: int| !span_shape(s@, k) by {
                if 0 <= k < s@.len() {
                    assert(s@[k] != '-');
                }
            }
            None
        },
        Some(d) => {
            assert(first_dash_at(s@, d as int));
            assert forall|k: int| span_shape(s@, k) implies k == d as int by {
                if k < d as int {
                    assert(s@[k] != '-');
                } else if k > d as int {
                    assert(s@[d as int] != '-');
                }
            }
            let left = parse_usize(s.substring_char(0, d));
            let right = parse_usize(s.substring_char(d + 1, len));
            match (left, right) {
                (Some(a), Some(b)) => {
                    assert(span_shape(s@, d as int));
                    Some((a, b))
                },
                _ => {
                    assert(!span_shape(s@, d as int));
                    assert(forall|k: int| !span_shape(s@, k));
                    None
                },
            }
        },
    }
}

} // verus!
