//! Screen resolutions and their textual `<width>x<height>` form.

use vstd::prelude::*;

use crate::digits::spec_parse_u32;

verus! {

/// A screen resolution, in pixels.
#[derive(Default, Debug, Clone, Copy, PartialEq, Eq, Structural)]
pub struct Resolution {
    pub width: u32,
    pub height: u32,
}

impl Resolution {
    pub fn new(width: u32, height: u32) -> (r: Self)
        ensures
            r == (Resolution { width, height }),
    {
        Self { width, height }
    }
}

/// The separator of the two sides of a textual resolution.
pub open spec fn spec_is_sep(c: char) -> bool {
    c == 'x' || c == 'X'
}

/// Whether `s` holds exactly one separator character.
pub open spec fn spec_single_sep(s: Seq<char>) -> bool {
    (exists|i: int| 0 <= i < s.len() && spec_is_sep(#[trigger] s[i])) && (forall|i: int, j: int|
        0 <= i < s.len() && 0 <= j < s.len() && spec_is_sep(#[trigger] s[i]) && spec_is_sep(
            #[trigger] s[j],
        ) ==> i == j)
}

/// The position of the single separator of `s`.
pub open spec fn spec_sep_at(s: Seq<char>) -> int {
    choose|i: int| 0 <= i < s.len() && spec_is_sep(#[trigger] s[i])
}

/// What parsing `"<width>x<height>"` yields: the two sides must be separated
/// by exactly one `x` or `X`, each side must parse as a `u32`, and the floors
/// of 640x480 apply; the `Err` payload is the reported reason.
pub open spec fn spec_parse_resolution(s: Seq<char>) -> Result<Resolution, Seq<char>> {
    if spec_single_sep(s) {
        let i = spec_sep_at(s);
        match (spec_parse_u32(s.subrange(0, i)), spec_parse_u32(s.subrange(i + 1, s.len() as int))) {
            (Some(w), Some(h)) => if w < 640 {
                Err("minimal width is 640"@)
            } else if h < 480 {
                Err("minimal height is 480"@)
            } else {
                Ok(Resolution { width: w, height: h })
            },
            _ => Err("invalid format"@),
        }
    } else {
        Err("invalid format"@)
    }
}

/// Textual form of a resolution, kept distinct from plain text so that the
/// conversion below is explicit.
pub struct ResolutionStr(pub String);

impl ResolutionStr {
    /// Parses the held text as a resolution.
    pub fn parse(&self) -> (r: Result<Resolution, &'static str>)
        ensures
            match spec_parse_resolution(self.0@) {
                Ok(res) => r matches Ok(v) && v == res,
                Err(msg) => r matches Err(m) && m@ == msg,
            },
    {
        crate::args::parse_resolution(self.0.as_str())
    }
}

} // verus!
