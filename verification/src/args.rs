//! The command-line requests the tool accepts, and the parsers for their
//! textual values.

use vstd::prelude::*;
use vstd::string::*;

use crate::digits::parse_u32_range;
use crate::ratio::{
    spec_colon_at, spec_has_colon, spec_match_from, spec_parse_ratio, spec_variant_at, Ratio,
};
use crate::resolution::{
    spec_is_sep, spec_parse_resolution, spec_sep_at, spec_single_sep, Resolution,
};

verus! {

/// What one invocation asks for. The surrounding command line front end fills
/// this in and hands it over.
#[derive(Debug)]
pub struct Args {
    pub set_resolution: Option<Resolution>,
    pub set_aspect_ratio: Option<crate::ratio::Ratio>,
    pub reset_aspect_ratio: bool,
    pub binary_path: Option<String>,
}

/// The tail of the ratio error text: the displayed forms of the named ratios
/// after `Original`, up to enumeration position `i`, joined by the list
/// separator.
pub open spec fn spec_entries_upto(i: int) -> Seq<char>
    decreases i,
{
    if i <= 1 {
        Seq::empty()
    } else {
        spec_entries_upto(i - 1) + (if i == 2 {
            Seq::<char>::empty()
        } else {
            "\r\n\t * "@
        }) + match spec_variant_at(i) {
            Some(v) => v.spec_text(),
            None => Seq::empty(),
        }
    }
}

/// The text reported for an unparsable or unsupported ratio: it repeats the
/// given text and lists every supported ratio.
pub open spec fn spec_ratio_err_msg(s: Seq<char>) -> Seq<char> {
    "\r\nIncorrect or unsupported aspect ratio. Given: `"@ + s
        + "`, but expected one of: \r\n\t * "@ + spec_entries_upto(7)
}

/// Builds the error text for a ratio request that named no supported ratio.
fn ratio_err_msg(s: &str) -> (r: String)
    ensures
        r@ == spec_ratio_err_msg(s@),
{
    let mut m = String::from_str("\r\nIncorrect or unsupported aspect ratio. Given: `");
    m.append(s);
    m.append("`, but expected one of: \r\n\t * ");
    let mut it = Ratio::variants();
    let skipped = it.next();
    while it.0 < 7
        invariant
            1 <= it.0 <= 7,
            m@ == "\r\nIncorrect or unsupported aspect ratio. Given: `"@ + s@
                + "`, but expected one of: \r\n\t * "@ + spec_entries_upto(it.0 as int),
        decreases 7 - it.0,
    {
        let v_opt = it.next();
        match v_opt {
            Some(v) => {
                if it.0 > 2 {
                    m.append("\r\n\t * ");
                }
                m.append(v.text());
            },
            None => {
                proof {
                    assert(false);
                }
            },
        }
    }
    m
}

/// Parses `"<w>:<h>"` into a named ratio, exactly as `spec_parse_ratio`
/// describes; the `Err` text lists every supported ratio.
pub fn parse_ratio(s: &str) -> (r: Result<Ratio, String>)
    ensures
        match spec_parse_ratio(s@) {
            Some(t) => r matches Ok(v) && v == t,
            None => r matches Err(m) && m@ == spec_ratio_err_msg(s@),
        },
{
    let n = s.unicode_len();
    let mut i: usize = 0;
    let mut found = false;
    let mut first: usize = 0;
    while i < n
        invariant
            i <= n == s@.len(),
            !found ==> forall|j: int| 0 <= j < i ==> s@[j] != ':',
            found ==> first < n && s@[first as int] == ':' && forall|j: int|
                0 <= j < first ==> s@[j] != ':',
        decreases n - i,
    {
        let c = s.get_char(i);
        if c == ':' && !found {
            found = true;
            first = i;
        }
        i = i + 1;
    }
    if !found {
        proof {
            assert(!spec_has_colon(s@));
        }
        return Err(ratio_err_msg(s));
    }
    proof {
        assert(spec_has_colon(s@));
        let k = spec_colon_at(s@);
        assert(0 <= k < s@.len() && s@[k] == ':' && (forall|j: int| 0 <= j < k ==> s@[j] != ':'))
            by {
            assert(s@[first as int] == ':' && (forall|j: int|
                0 <= j < first ==> s@[j] != ':'));
        }
        assert(k == first);
    }
    let w_opt = parse_u32_range(s, 0, first);
    let h_opt = parse_u32_range(s, first + 1, n);
    match (w_opt, h_opt) {
        (Some(w0), Some(h0)) => {
            let (w, h) = if w0 == 8 && h0 == 5 {
                (16u32, 10u32)
            } else {
                (w0, h0)
            };
            let mut it = Ratio::variants();
            while it.0 < 7
                invariant
                    it.0 <= 7,
                    spec_parse_ratio(s@) == spec_match_from(it.0 as int + 1, w, h),
                decreases 7 - it.0,
            {
                let v_opt = it.next();
                match v_opt {
                    Some(v) => {
                        if v.w() == w && v.h() == h {
                            return Ok(v);
                        }
                    },
                    None => {
                        proof {
                            assert(false);
                        }
                    },
                }
            }
            Err(ratio_err_msg(s))
        },
        _ => Err(ratio_err_msg(s)),
    }
}

/// Parses `"<width>x<height>"` into a resolution, exactly as
/// `spec_parse_resolution` describes.
pub fn parse_resolution(s: &str) -> (r: Result<Resolution, &'static str>)
    ensures
        match spec_parse_resolution(s@) {
            Ok(res) => r matches Ok(v) && v == res,
            Err(msg) => r matches Err(m) && m@ == msg,
        },
{
    let n = s.unicode_len();
    let mut i: usize = 0;
    let mut count: usize = 0;
    let mut first: usize = 0;
    while i < n
        invariant
            i <= n == s@.len(),
            count <= 2,
            count == 0 ==> forall|j: int| 0 <= j < i ==> !spec_is_sep(#[trigger] s@[j]),
            count == 1 ==> first < i && spec_is_sep(s@[first as int]) && forall|j: int|
                0 <= j < i && j != first ==> !spec_is_sep(#[trigger] s@[j]),
            count >= 2 ==> exists|a: int, b: int|
                0 <= a < b < i && spec_is_sep(#[trigger] s@[a]) && spec_is_sep(#[trigger] s@[b]),
        decreases n - i,
    {
        let c = s.get_char(i);
        if c == 'x' || c == 'X' {
            if count == 0 {
                first = i;
                count = 1;
            } else if count == 1 {
                proof {
                    assert(0 <= first < i && spec_is_sep(s@[first as int]) && spec_is_sep(
                        s@[i as int],
                    ));
                }
                count = 2;
            }
        }
        i = i + 1;
    }
    if count != 1 {
        proof {
            assert(!spec_single_sep(s@));
        }
        return Err("invalid format");
    }
    proof {
        assert(spec_single_sep(s@));
        let k = spec_sep_at(s@);
        assert(0 <= k < s@.len() && spec_is_sep(s@[k]));
        assert(k == first);
    }
    let w = parse_u32_range(s, 0, first);
    let h = parse_u32_range(s, first + 1, n);
    match (w, h) {
        (Some(w), Some(h)) => {
            if w < 640 {
                Err("minimal width is 640")
            } else if h < 480 {
                Err("minimal height is 480")
            } else {
                Ok(Resolution::new(w, h))
            }
        },
        _ => Err("invalid format"),
    }
}

} // verus!
