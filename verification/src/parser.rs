//! Line protocol parser: the device sends ASCII text, one sample per line,
//! in the form `RAW:<integer>`.  A line of that shape yields the integer;
//! every other line (noise, diagnostics, blank lines, a `RAW:` prefix with a
//! non-numeric or out-of-range payload) is discarded silently.

use vstd::prelude::*;

verus! {

/// ASCII whitespace, as trimmed from the ends of a received line.
pub open spec fn is_space(b: u8) -> bool {
    b == 32 || b == 9 || b == 10 || b == 13 || b == 12
}

/// ASCII decimal digit.
pub open spec fn is_digit(b: u8) -> bool {
    48 <= b <= 57
}

/// The line with ASCII whitespace removed from both ends.
pub open spec fn trimmed(s: Seq<u8>) -> Seq<u8>
    decreases s.len(),
{
    if s.len() > 0 && is_space(s[0]) {
        trimmed(s.drop_first())
    } else if s.len() > 0 && is_space(s.last()) {
        trimmed(s.drop_last())
    } else {
        s
    }
}

/// Value of a string of decimal digits, most significant first.
pub open spec fn digits_val(s: Seq<u8>) -> int
    decreases s.len(),
{
    if s.len() == 0 {
        0
    } else {
        digits_val(s.drop_last()) * 10 + (s.last() - 48)
    }
}

pub open spec fn all_digits(s: Seq<u8>) -> bool {
    forall|i: int| 0 <= i < s.len() ==> is_digit(s[i])
}

/// The payload after the `RAW:` tag: an optional sign followed by digits.
pub open spec fn payload_has_sign(s: Seq<u8>) -> bool {
    s.len() > 0 && (s[0] == 43 || s[0] == 45)
}

pub open spec fn payload_digits(s: Seq<u8>) -> Seq<u8> {
    if payload_has_sign(s) {
        s.drop_first()
    } else {
        s
    }
}

pub open spec fn payload_sign(s: Seq<u8>) -> int {
    if s.len() > 0 && s[0] == 45 {
        -1
    } else {
        1
    }
}

/// The payload parses as an integer that fits a 32-bit signed value: at least
/// one digit, nothing but digits after the optional sign, value in range.
pub open spec fn payload_ok(s: Seq<u8>) -> bool {
    &&& payload_digits(s).len() > 0
    &&& all_digits(payload_digits(s))
    &&& -2147483648 <= payload_sign(s) * digits_val(payload_digits(s))
    &&& payload_sign(s) * digits_val(payload_digits(s)) <= 2147483647
}

pub open spec fn payload_val(s: Seq<u8>) -> int {
    payload_sign(s) * digits_val(payload_digits(s))
}

/// The `RAW:` tag, as bytes.
pub open spec fn has_raw_tag(s: Seq<u8>) -> bool {
    s.len() >= 4 && s[0] == 82 && s[1] == 65 && s[2] == 87 && s[3] == 58
}

/// What a received line means: `Some(v)` exactly when, after trimming, it is
/// `RAW:` followed by an integer payload that fits a 32-bit signed value.
pub open spec fn line_value(s: Seq<u8>) -> Option<int> {
    let t = trimmed(s);
    if has_raw_tag(t) && payload_ok(t.skip(4)) {
        Some(payload_val(t.skip(4)))
    } else {
        None
    }
}

proof fn lemma_digits_val_nonneg(s: Seq<u8>)
    requires
        all_digits(s),
    ensures
        digits_val(s) >= 0,
    decreases s.len(),
{
    if s.len() > 0 {
        assert(all_digits(s.drop_last()));
        lemma_digits_val_nonneg(s.drop_last());
    }
}

/// A digit string is worth at least as much as any of its prefixes.
proof fn lemma_digits_val_prefix(s: Seq<u8>, k: int)
    requires
        all_digits(s),
        0 <= k <= s.len(),
    ensures
        digits_val(s.take(k)) <= digits_val(s),
    decreases s.len() - k,
{
    if k < s.len() {
        assert(all_digits(s.take(k + 1)));
        lemma_digits_val_nonneg(s.take(k));
        assert(s.take(k + 1).drop_last() =~= s.take(k));
        assert(digits_val(s.take(k + 1)) == digits_val(s.take(k)) * 10 + (s[k] - 48));
        lemma_digits_val_prefix(s, k + 1);
    } else {
        assert(s.take(k) =~= s);
    }
}

/// Parse one received line.  Returns the sample value exactly when the line,
/// after trimming, is `RAW:` followed by an integer fitting a 32-bit signed
/// value; returns `None` for every other line.
pub fn parse_sample(line: &[u8]) -> (r: Option<i32>)
    ensures
        r matches Some(v) ==> line_value(line@) == Some(v as int),
        r is None ==> line_value(line@) is None,
{
    let mut lo: usize = 0;
    let mut hi: usize = line.len();
    proof {
        assert(line@.subrange(0, line@.len() as int) =~= line@);
    }
    while lo < hi && (line[lo] == 32 || line[lo] == 9 || line[lo] == 10 || line[lo] == 13
        || line[lo] == 12)
        invariant
            0 <= lo <= hi <= line@.len(),
            trimmed(line@) == trimmed(line@.subrange(lo as int, hi as int)),
        decreases hi - lo,
    {
        proof {
            let sub = line@.subrange(lo as int, hi as int);
            assert(sub.drop_first() =~= line@.subrange(lo as int + 1, hi as int));
        }
        lo = lo + 1;
    }
    while lo < hi && (line[hi - 1] == 32 || line[hi - 1] == 9 || line[hi - 1] == 10 || line[hi - 1]
        == 13 || line[hi - 1] == 12)
        invariant
            0 <= lo <= hi <= line@.len(),
            trimmed(line@) == trimmed(line@.subrange(lo as int, hi as int)),
            lo < hi ==> !is_space(line@[lo as int]),
        decreases hi - lo,
    {
        proof {
            let sub = line@.subrange(lo as int, hi as int);
            assert(sub.drop_last() =~= line@.subrange(lo as int, hi as int - 1));
        }
        hi = hi - 1;
    }
    let ghost t = line@.subrange(lo as int, hi as int);
    proof {
        assert(trimmed(t) == t);
        assert(trimmed(line@) == t);
    }
    // The trimmed line must start with the RAW: tag.
    if hi - lo < 5 {
        // Too short for the tag and at least one payload byte.
        proof {
            if has_raw_tag(t) {
                assert(payload_digits(t.skip(4)).len() == 0);
            }
        }
        return None;
    }
    if !(line[lo] == 82 && line[lo + 1] == 65 && line[lo + 2] == 87 && line[lo + 3] == 58) {
        return None;
    }
    proof {
        assert(t[0] == line@[lo as int] && t[1] == line@[lo as int + 1] && t[2] == line@[lo as int
            + 2] && t[3] == line@[lo as int + 3]);
        assert(has_raw_tag(t));
    }
    let ghost payload = t.skip(4);
    let mut j: usize = lo + 4;
    let mut negative: bool = false;
    if line[j] == 43 || line[j] == 45 {
        negative = line[j] == 45;
        j = j + 1;
        proof {
            assert(payload[0] == line@[lo as int + 4]);
            assert(payload_has_sign(payload));
            assert(payload_digits(payload) =~= line@.subrange(j as int, hi as int));
            assert(payload_sign(payload) == (if negative {
                -1int
            } else {
                1int
            }));
        }
    } else {
        proof {
            assert(payload.len() > 0 && payload[0] == line@[lo as int + 4]);
            assert(!payload_has_sign(payload));
            assert(payload_digits(payload) =~= line@.subrange(j as int, hi as int));
            assert(payload_sign(payload) == 1int);
        }
    }
    let ghost digits = payload_digits(payload);
    let d0: usize = j;
    if j == hi {
        // A sign with nothing after it.
        return None;
    }
    let mut acc: u64 = 0;
    while j < hi
        invariant
            lo + 4 <= d0 <= j <= hi <= line@.len(),
            d0 < hi,
            t == trimmed(line@),
            t == line@.subrange(lo as int, hi as int),
            has_raw_tag(t),
            payload == t.skip(4),
            digits == payload_digits(payload),
            payload_sign(payload) == (if negative {
                -1int
            } else {
                1int
            }),
            digits =~= line@.subrange(d0 as int, hi as int),
            all_digits(digits.take(j - d0)),
            acc == digits_val(digits.take(j - d0)),
            acc <= 2147483648,
        decreases hi - j,
    {
        let b = line[j];
        if b < 48 || b > 57 {
            // Not a digit: the payload is not numeric.
            proof {
                assert(digits[j - d0] == b);
                assert(!all_digits(digits));
            }
            return None;
        }
        proof {
            assert(digits.take(j - d0 + 1).drop_last() =~= digits.take(j - d0));
            assert(digits.take(j - d0 + 1).last() == b);
            assert(forall|k: int| 0 <= k < j - d0 + 1 ==> is_digit(#[trigger] digits.take(
                j - d0 + 1)[k]));
        }
        acc = acc * 10 + ((b - 48) as u64);
        j = j + 1;
        if acc > 2147483648 {
            // Already beyond any value a 32-bit signed integer can hold, and
            // further digits can only increase it.
            proof {
                assert(acc == digits_val(digits.take(j - d0)));
                if all_digits(digits) {
                    lemma_digits_val_prefix(digits, j - d0);
                    assert(digits_val(digits) >= acc);
                    assert(!payload_ok(payload));
                } else {
                    assert(!payload_ok(payload));
                }
                assert(line_value(line@) is None);
            }
            return None;
        }
    }
    proof {
        assert(digits.take(j - d0) =~= digits);
    }
    if negative {
        proof {
            lemma_digits_val_nonneg(digits);
        }
        let v: i64 = -(acc as i64);
        Some(v as i32)
    } else {
        if acc > 2147483647 {
            return None;
        }
        Some(acc as i32)
    }
}

} // verus!
