//! The known binary variants: one descriptor each, as fixed data.

use vstd::prelude::*;

use super::Patch;

verus! {

/// The reference digest of the `RU 1008 KB` variant.
pub open spec fn spec_ru_1008_sha2() -> Seq<u8> {
    seq![
        0x7au8, 0x3bu8, 0xf7u8, 0x73u8, 0xcbu8, 0x62u8, 0x0bu8, 0x8cu8, 0x54u8, 0x7eu8, 0xe0u8,
        0x4bu8, 0x40u8, 0xcdu8, 0x43u8, 0xa3u8, 0x8du8, 0x9cu8, 0x96u8, 0x9bu8, 0x92u8, 0x5eu8,
        0x9bu8, 0xecu8, 0xa5u8, 0x36u8, 0x3bu8, 0x40u8, 0x58u8, 0x8fu8, 0x93u8, 0x80u8,
    ]
}

/// The reference digest of the `EN 992 KB` variant.
pub open spec fn spec_en_992_sha2() -> Seq<u8> {
    seq![
        0xfcu8, 0x4fu8, 0x5eu8, 0x80u8, 0xbdu8, 0x30u8, 0x20u8, 0xfeu8, 0x83u8, 0x15u8, 0x35u8,
        0x02u8, 0x53u8, 0x36u8, 0xcdu8, 0x61u8, 0x36u8, 0x4cu8, 0x3bu8, 0x2eu8, 0xdbu8, 0x0eu8,
        0xaau8, 0xa6u8, 0x2bu8, 0xaeu8, 0x97u8, 0x24u8, 0x27u8, 0xe3u8, 0x49u8, 0xfcu8,
    ]
}

/// The reference digest of the `Zoom Platform 992 KB` variant.
pub open spec fn spec_zoom_sha2() -> Seq<u8> {
    seq![
        0x5eu8, 0x04u8, 0xa6u8, 0x30u8, 0x4cu8, 0x4fu8, 0xbeu8, 0xbdu8, 0xe4u8, 0x66u8, 0xc3u8,
        0x8cu8, 0xf4u8, 0xd5u8, 0xbbu8, 0xe6u8, 0xf2u8, 0xd3u8, 0xfdu8, 0xc6u8, 0x21u8, 0xafu8,
        0x2fu8, 0xdau8, 0xa3u8, 0xb9u8, 0xcdu8, 0x24u8, 0xfeu8, 0xbeu8, 0x20u8, 0x35u8,
    ]
}

/// Whether `c` is the fixed catalog of known variants, in its fixed order.
pub open spec fn spec_known_catalog(c: Seq<Patch>) -> bool {
    c.len() == 3 && c[0].name@ == "RU 1008 KB"@ && c[0].sha2@ == spec_ru_1008_sha2()
        && c[0].ratio_offset == 0xc7ed8 && c[1].name@ == "EN 992 KB"@ && c[1].sha2@
        == spec_en_992_sha2() && c[1].ratio_offset == 0xcaefc && c[2].name@
        == "Zoom Platform 992 KB"@ && c[2].sha2@ == spec_zoom_sha2() && c[2].ratio_offset
        == 0xcaefc
}

pub(super) fn patch_ru_1008() -> (r: Patch)
    ensures
        r.name@ == "RU 1008 KB"@,
        r.sha2@ == spec_ru_1008_sha2(),
        r.ratio_offset == 0xc7ed8,
{
    let sha2: [u8; 32] = [
        0x7a, 0x3b, 0xf7, 0x73, 0xcb, 0x62, 0x0b, 0x8c, 0x54, 0x7e, 0xe0, 0x4b, 0x40, 0xcd, 0x43,
        0xa3, 0x8d, 0x9c, 0x96, 0x9b, 0x92, 0x5e, 0x9b, 0xec, 0xa5, 0x36, 0x3b, 0x40, 0x58, 0x8f,
        0x93, 0x80,
    ];
    proof {
        assert(sha2@ =~= spec_ru_1008_sha2());
    }
    Patch { name: "RU 1008 KB", sha2, ratio_offset: 0xc7ed8 }
}

pub(super) fn patch_en_992() -> (r: Patch)
    ensures
        r.name@ == "EN 992 KB"@,
        r.sha2@ == spec_en_992_sha2(),
        r.ratio_offset == 0xcaefc,
{
    let sha2: [u8; 32] = [
        0xfc, 0x4f, 0x5e, 0x80, 0xbd, 0x30, 0x20, 0xfe, 0x83, 0x15, 0x35, 0x02, 0x53, 0x36, 0xcd,
        0x61, 0x36, 0x4c, 0x3b, 0x2e, 0xdb, 0x0e, 0xaa, 0xa6, 0x2b, 0xae, 0x97, 0x24, 0x27, 0xe3,
        0x49, 0xfc,
    ];
    proof {
        assert(sha2@ =~= spec_en_992_sha2());
    }
    Patch { name: "EN 992 KB", sha2, ratio_offset: 0xcaefc }
}

pub(super) fn patch_zoom() -> (r: Patch)
    ensures
        r.name@ == "Zoom Platform 992 KB"@,
        r.sha2@ == spec_zoom_sha2(),
        r.ratio_offset == 0xcaefc,
{
    let sha2: [u8; 32] = [
        0x5e, 0x04, 0xa6, 0x30, 0x4c, 0x4f, 0xbe, 0xbd, 0xe4, 0x66, 0xc3, 0x8c, 0xf4, 0xd5, 0xbb,
        0xe6, 0xf2, 0xd3, 0xfd, 0xc6, 0x21, 0xaf, 0x2f, 0xda, 0xa3, 0xb9, 0xcd, 0x24, 0xfe, 0xbe,
        0x20, 0x35,
    ];
    proof {
        assert(sha2@ =~= spec_zoom_sha2());
    }
    Patch { name: "Zoom Platform 992 KB", sha2, ratio_offset: 0xcaefc }
}

} // verus!
