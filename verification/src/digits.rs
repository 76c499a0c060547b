//! Parsing unsigned decimal numbers out of a range of a string, in the way
//! `u32` is read from text: an optional leading `+`, then one or more ASCII
//! digits, rejecting empty input and values over `u32::MAX`.

use vstd::prelude::*;
use vstd::string::*;

verus! {

pub open spec fn spec_is_digit(c: char) -> bool {
    48 <= c as int <= 57
}

pub open spec fn spec_digit_val(c: char) -> int {
    c as int - 48
}

pub open spec fn spec_all_digits(t: Seq<char>) -> bool {
    forall|i: int| 0 <= i < t.len() ==> spec_is_digit(#[trigger] t[i])
}

/// The value of a digit string, most significant digit first.
pub open spec fn spec_digits_val(t: Seq<char>) -> int
    decreases t.len(),
{
    if t.len() == 0 {
        0
    } else {
        spec_digits_val(t.drop_last()) * 10 + spec_digit_val(t.last())
    }
}

/// What `"<text>".parse::<u32>()` accepts: an optional `+`, then at least
/// one digit, with a value that fits in a `u32`.
pub open spec fn spec_parse_u32(t: Seq<char>) -> Option<u32> {
    let d = if t.len() > 0 && t[0] == '+' {
        t.drop_first()
    } else {
        t
    };
    if d.len() > 0 && spec_all_digits(d) && spec_digits_val(d) <= u32::MAX as int {
        Some(spec_digits_val(d) as u32)
    } else {
        None
    }
}

pub proof fn lemma_digits_val_nonneg(t: Seq<char>)
    requires
        spec_all_digits(t),
    ensures
        spec_digits_val(t) >= 0,
    decreases t.len(),
{
    if t.len() > 0 {
        lemma_digits_val_nonneg(t.drop_last());
    }
}

pub proof fn lemma_digits_val_push(t: Seq<char>, c: char)
    ensures
        spec_digits_val(t.push(c)) == spec_digits_val(t) * 10 + spec_digit_val(c),
{
    assert(t.push(c).drop_last() =~= t);
    assert(t.push(c).last() == c);
}

/// Parses the characters `s[from..to]` as a `u32`, returning `None` exactly
/// where `str::parse::<u32>` would fail on that text.
pub fn parse_u32_range(s: &str, from: usize, to: usize) -> (r: Option<u32>)
    requires
        from <= to <= s@.len(),
    ensures
        r == spec_parse_u32(s@.subrange(from as int, to as int)),
{
    let ghost t = s@.subrange(from as int, to as int);
    let mut i = from;
    if i < to {
        let c0 = s.get_char(i);
        if c0 == '+' {
            i = i + 1;
        }
    }
    let start = i;
    let ghost d = s@.subrange(start as int, to as int);
    proof {
        if t.len() > 0 && t[0] == '+' {
            assert(t.drop_first() =~= d);
        } else {
            assert(t =~= d);
        }
    }
    if i == to {
        return None;
    }
    let mut val: u64 = 0;
    let mut over = false;
    while i < to
        invariant
            start <= i <= to <= s@.len(),
            from <= start,
            t == s@.subrange(from as int, to as int),
            if t.len() > 0 && t[0] == '+' {
                start == from + 1
            } else {
                start == from
            },
            d == s@.subrange(start as int, to as int),
            d.len() > 0,
            forall|j: int| start <= j < i ==> spec_is_digit(#[trigger] s@[j]),
            !over ==> val == spec_digits_val(s@.subrange(start as int, i as int)) && val <= u32::MAX as u64,
            over ==> spec_digits_val(s@.subrange(start as int, i as int)) > u32::MAX as int,
        decreases to - i,
    {
        let c = s.get_char(i);
        let cv = c as u32;
        if cv < 48 || cv > 57 {
            proof {
                if t.len() > 0 && t[0] == '+' {
                    assert(t.drop_first() =~= d);
                } else {
                    assert(t =~= d);
                }
                assert(d[i - start] == s@[i as int]);
                assert(!spec_all_digits(d));
            }
            return None;
        }
        proof {
            assert(s@.subrange(start as int, i + 1) =~= s@.subrange(start as int, i as int).push(
                s@[i as int],
            ));
            lemma_digits_val_push(s@.subrange(start as int, i as int), s@[i as int]);
        }
        let dv = (cv - 48) as u64;
        if !over {
            let nv = val * 10 + dv;
            if nv > 0xFFFF_FFFF {
                over = true;
            } else {
                val = nv;
            }
        }
        i = i + 1;
    }
    proof {
        if t.len() > 0 && t[0] == '+' {
            assert(t.drop_first() =~= d);
        } else {
            assert(t =~= d);
        }
        assert(forall|j: int| 0 <= j < d.len() ==> d[j] == s@[start + j]);
        assert(spec_all_digits(d));
    }
    if over {
        None
    } else {
        Some(val as u32)
    }
}

} // verus!
