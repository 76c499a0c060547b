//! Named aspect ratios and their 3-byte encodings inside a known binary.

use vstd::prelude::*;

use crate::error_code::ErrorCode;

verus! {

broadcast use vstd::array::group_array_axioms;

/// Number of bytes in the mutable aspect-ratio region of a known binary.
pub const RATIO_LENGTH: usize = 3;

/// The named aspect ratios a known binary can hold in its mutable region.
/// `Original` is the value the reference binaries ship with; it displays as
/// the same `5:4` picture as `W5H4` but has its own on-disk encoding.
#[derive(Clone, Copy, PartialEq, Eq, Structural, Debug)]
pub enum Ratio {
    Original,
    W5H4,
    W25H16,
    W16H10,
    W15H9,
    W16H9,
    W21H9,
}

impl Ratio {
    /// The 3-byte on-disk encoding of this ratio.
    pub open spec fn spec_hex(self) -> Seq<u8> {
        match self {
            Ratio::Original => seq![0xcdu8, 0xccu8, 0x4cu8],
            Ratio::W5H4 => seq![0x66u8, 0x66u8, 0x66u8],
            Ratio::W25H16 => seq![0x3bu8, 0xdfu8, 0x87u8],
            Ratio::W16H10 => seq![0x61u8, 0xe0u8, 0x89u8],
            Ratio::W15H9 => seq![0xbau8, 0x2cu8, 0x8eu8],
            Ratio::W16H9 => seq![0xe3u8, 0xa5u8, 0x93u8],
            Ratio::W21H9 => seq![0x29u8, 0x5cu8, 0xafu8],
        }
    }

    /// The bytes stored in the mutable region when this ratio is applied.
    pub fn hex(&self) -> (r: [u8; 3])
        ensures
            r@ == self.spec_hex(),
    {
        let r: [u8; 3] = match self {
            Ratio::Original => [0xcd, 0xcc, 0x4c],
            Ratio::W5H4 => [0x66, 0x66, 0x66],
            Ratio::W25H16 => [0x3b, 0xdf, 0x87],
            Ratio::W16H10 => [0x61, 0xe0, 0x89],
            Ratio::W15H9 => [0xba, 0x2c, 0x8e],
            Ratio::W16H9 => [0xe3, 0xa5, 0x93],
            Ratio::W21H9 => [0x29, 0x5c, 0xaf],
        };
        proof {
            assert(r@ =~= self.spec_hex());
        }
        r
    }

    /// The width:height pair this ratio displays as.
    pub open spec fn spec_value(self) -> (u32, u32) {
        match self {
            Ratio::Original => (5u32, 4u32),
            Ratio::W5H4 => (5u32, 4u32),
            Ratio::W25H16 => (25u32, 16u32),
            Ratio::W16H10 => (16u32, 10u32),
            Ratio::W15H9 => (15u32, 9u32),
            Ratio::W16H9 => (16u32, 9u32),
            Ratio::W21H9 => (21u32, 9u32),
        }
    }

    pub fn value(&self) -> (r: (u32, u32))
        ensures
            r == self.spec_value(),
    {
        match self {
            Ratio::Original | Ratio::W5H4 => (5, 4),
            Ratio::W25H16 => (25, 16),
            Ratio::W16H10 => (16, 10),
            Ratio::W15H9 => (15, 9),
            Ratio::W16H9 => (16, 9),
            Ratio::W21H9 => (21, 9),
        }
    }

    pub fn w(&self) -> (r: u32)
        ensures
            r == self.spec_value().0,
    {
        self.value().0
    }

    pub fn h(&self) -> (r: u32)
        ensures
            r == self.spec_value().1,
    {
        self.value().1
    }

    /// The ratio encoded by `s`, if it is the encoding of one.
    pub open spec fn spec_from_hex(s: Seq<u8>) -> Option<Ratio> {
        if s == Ratio::Original.spec_hex() {
            Some(Ratio::Original)
        } else if s == Ratio::W5H4.spec_hex() {
            Some(Ratio::W5H4)
        } else if s == Ratio::W25H16.spec_hex() {
            Some(Ratio::W25H16)
        } else if s == Ratio::W16H10.spec_hex() {
            Some(Ratio::W16H10)
        } else if s == Ratio::W15H9.spec_hex() {
            Some(Ratio::W15H9)
        } else if s == Ratio::W16H9.spec_hex() {
            Some(Ratio::W16H9)
        } else if s == Ratio::W21H9.spec_hex() {
            Some(Ratio::W21H9)
        } else {
            None
        }
    }

    /// Decodes a mutable-region value back into its named ratio; bytes that
    /// encode no named ratio are an unrecognized region value.
    pub fn from_hex(bytes: &[u8; 3]) -> (r: Result<Ratio, ErrorCode>)
        ensures
            match Ratio::spec_from_hex(bytes@) {
                Some(t) => r == Ok::<Ratio, ErrorCode>(t),
                None => r matches Err(ErrorCode::UnknownRatio),
            },
    {
        if hex_is(bytes, 0xcd, 0xcc, 0x4c) {
            Ok(Ratio::Original)
        } else if hex_is(bytes, 0x66, 0x66, 0x66) {
            Ok(Ratio::W5H4)
        } else if hex_is(bytes, 0x3b, 0xdf, 0x87) {
            Ok(Ratio::W25H16)
        } else if hex_is(bytes, 0x61, 0xe0, 0x89) {
            Ok(Ratio::W16H10)
        } else if hex_is(bytes, 0xba, 0x2c, 0x8e) {
            Ok(Ratio::W15H9)
        } else if hex_is(bytes, 0xe3, 0xa5, 0x93) {
            Ok(Ratio::W16H9)
        } else if hex_is(bytes, 0x29, 0x5c, 0xaf) {
            Ok(Ratio::W21H9)
        } else {
            Err(ErrorCode::UnknownRatio)
        }
    }

    /// The width:height pair of this ratio, as text.
    pub open spec fn spec_text(self) -> Seq<char> {
        match self {
            Ratio::Original => "5:4"@,
            Ratio::W5H4 => "5:4"@,
            Ratio::W25H16 => "25:16"@,
            Ratio::W16H10 => "16:10"@,
            Ratio::W15H9 => "15:9"@,
            Ratio::W16H9 => "16:9"@,
            Ratio::W21H9 => "21:9"@,
        }
    }

    pub fn text(&self) -> (r: &'static str)
        ensures
            r@ == self.spec_text(),
    {
        match self {
            Ratio::Original | Ratio::W5H4 => "5:4",
            Ratio::W25H16 => "25:16",
            Ratio::W16H10 => "16:10",
            Ratio::W15H9 => "15:9",
            Ratio::W16H9 => "16:9",
            Ratio::W21H9 => "21:9",
        }
    }

    /// All named ratios, in their fixed enumeration order.
    pub fn variants() -> (r: RatioIterator)
        ensures
            r.0 == 0,
    {
        RatioIterator(0)
    }
}

/// Whether `s` holds a `:` anywhere.
pub open spec fn spec_has_colon(s: Seq<char>) -> bool {
    exists|i: int| 0 <= i < s.len() && #[trigger] s[i] == ':'
}

/// The position of the first `:` of `s`.
pub open spec fn spec_colon_at(s: Seq<char>) -> int {
    choose|i: int|
        0 <= i < s.len() && #[trigger] s[i] == ':' && forall|j: int| 0 <= j < i ==> s[j] != ':'
}

/// The first named ratio, from enumeration position `i` on, that displays as
/// `w:h`.
pub open spec fn spec_match_from(i: int, w: u32, h: u32) -> Option<Ratio>
    decreases 8 - i,
{
    if 1 <= i <= 7 {
        match spec_variant_at(i) {
            Some(v) => if v.spec_value() == (w, h) {
                Some(v)
            } else {
                spec_match_from(i + 1, w, h)
            },
            None => None,
        }
    } else {
        None
    }
}

/// What parsing `"<w>:<h>"` yields: the sides around the first `:` must both
/// parse as a `u32`; `8:5` is treated as `16:10`; the result is the first
/// named ratio displaying as that pair. Text without a `:`, with an
/// unparsable side, or with an unknown pair yields nothing.
pub open spec fn spec_parse_ratio(s: Seq<char>) -> Option<Ratio> {
    if spec_has_colon(s) {
        let i = spec_colon_at(s);
        match (
            crate::digits::spec_parse_u32(s.subrange(0, i)),
            crate::digits::spec_parse_u32(s.subrange(i + 1, s.len() as int)),
        ) {
            (Some(w0), Some(h0)) => {
                let (w, h) = if w0 == 8 && h0 == 5 {
                    (16u32, 10u32)
                } else {
                    (w0, h0)
                };
                spec_match_from(1, w, h)
            },
            _ => None,
        }
    } else {
        None
    }
}

/// Textual form of an aspect ratio, kept distinct from plain text so that
/// the conversion below is explicit.
pub struct RatioStr(pub String);

impl RatioStr {
    /// Parses the held text as a named ratio.
    pub fn parse(&self) -> (r: Result<Ratio, String>)
        ensures
            match spec_parse_ratio(self.0@) {
                Some(t) => r matches Ok(v) && v == t,
                None => r matches Err(m) && m@ == crate::args::spec_ratio_err_msg(self.0@),
            },
    {
        crate::args::parse_ratio(self.0.as_str())
    }
}

/// Whether `b` holds exactly the bytes `x0`, `x1`, `x2`.
fn hex_is(b: &[u8; 3], x0: u8, x1: u8, x2: u8) -> (r: bool)
    ensures
        r <==> b@ == seq![x0, x1, x2],
{
    let r = b[0] == x0 && b[1] == x1 && b[2] == x2;
    proof {
        if r {
            assert(b@ =~= seq![x0, x1, x2]);
        } else {
            assert(b@ != seq![x0, x1, x2]);
        }
    }
    r
}

/// The ratio at position `i` (1-based) of the fixed enumeration order,
/// `None` past the end.
pub open spec fn spec_variant_at(i: int) -> Option<Ratio> {
    if i == 1 {
        Some(Ratio::Original)
    } else if i == 2 {
        Some(Ratio::W5H4)
    } else if i == 3 {
        Some(Ratio::W25H16)
    } else if i == 4 {
        Some(Ratio::W16H10)
    } else if i == 5 {
        Some(Ratio::W15H9)
    } else if i == 6 {
        Some(Ratio::W16H9)
    } else if i == 7 {
        Some(Ratio::W21H9)
    } else {
        None
    }
}

/// Walks the named ratios in their fixed enumeration order.
#[derive(Clone, Copy, Debug)]
pub struct RatioIterator(pub usize);

impl RatioIterator {
    /// The next ratio in enumeration order, `None` once all seven are done.
    pub fn next(&mut self) -> (r: Option<Ratio>)
        requires
            old(self).0 < usize::MAX,
        ensures
            final(self).0 == old(self).0 + 1,
            r == spec_variant_at(old(self).0 + 1),
    {
        self.0 = self.0 + 1;
        match self.0 {
            1 => Some(Ratio::Original),
            2 => Some(Ratio::W5H4),
            3 => Some(Ratio::W25H16),
            4 => Some(Ratio::W16H10),
            5 => Some(Ratio::W15H9),
            6 => Some(Ratio::W16H9),
            7 => Some(Ratio::W21H9),
            _ => None,
        }
    }
}

} // verus!
