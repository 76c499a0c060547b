//! Proved statements about detection and patching taken as wholes: what a
//! zero-length or truncated file can never yield, and what detection returns
//! on a file whose mutable region has just been rewritten.

use vstd::prelude::*;

use crate::patch::{
    spec_canonical, spec_captured, spec_captured_upto, spec_chunk, spec_chunk_end, spec_detect,
    spec_masked,
    spec_masked_chunk, spec_masked_upto, spec_num_chunks, spec_patch_matches,
    spec_region_in_chunk, spec_write_region, Patch,
};

verus! {

/// Geometry of the `i`-th chunk of a stream: it starts before the stream's
/// end, holds between 1 and 32 bytes, and ends within the stream.
proof fn lemma_chunk_len(data: Seq<u8>, i: int)
    requires
        0 <= i < spec_num_chunks(data.len() as int),
    ensures
        32 * i < data.len(),
        0 < spec_chunk(data, i).len() <= 32,
        32 * i + spec_chunk(data, i).len() == spec_chunk_end(data.len() as int, 32 * i),
        spec_chunk_end(data.len() as int, 32 * i) <= data.len(),
{
    let len = data.len() as int;
    assert(len + 31 >= 32 * (i + 1));
    assert(32 * i < len);
}

/// A captured region value is always the file's own bytes at the region,
/// and it is present exactly when some chunk held the region strictly
/// inside.
proof fn lemma_captured_upto_some(p: Patch, data: Seq<u8>, i: int)
    requires
        0 <= i <= spec_num_chunks(data.len() as int),
    ensures
        match spec_captured_upto(p, data, i) {
            Some(v) => v == data.subrange(p.ratio_offset as int, p.ratio_offset + 3 as int)
                && exists|c: int|
                0 <= c < i && #[trigger] spec_region_in_chunk(
                    p.ratio_offset as int,
                    3,
                    32 * c,
                    spec_chunk(data, c).len() as int,
                ),
            None => forall|c: int|
                0 <= c < i ==> !#[trigger] spec_region_in_chunk(
                    p.ratio_offset as int,
                    3,
                    32 * c,
                    spec_chunk(data, c).len() as int,
                ),
        },
    decreases i,
{
    if i > 0 {
        lemma_captured_upto_some(p, data, i - 1);
    }
}

/// A candidate whose captured value is present saw its whole region, plus a
/// margin byte, inside the file.
pub proof fn lemma_captured_in_bounds(p: Patch, data: Seq<u8>)
    requires
        spec_captured(p, data) is Some,
    ensures
        p.ratio_offset + 3 < data.len(),
{
    let n = spec_num_chunks(data.len() as int);
    lemma_captured_upto_some(p, data, n);
    let c = choose|c: int|
        0 <= c < n && #[trigger] spec_region_in_chunk(
            p.ratio_offset as int,
            3,
            32 * c,
            spec_chunk(data, c).len() as int,
        );
    lemma_chunk_len(data, c);
}

/// The region sits inside at most one chunk: every other chunk lies wholly
/// before or wholly after it.
proof fn lemma_region_chunk_unique(p: Patch, data: Seq<u8>, c: int, j: int)
    requires
        0 <= c < spec_num_chunks(data.len() as int),
        0 <= j < spec_num_chunks(data.len() as int),
        spec_region_in_chunk(p.ratio_offset as int, 3, 32 * c, spec_chunk(data, c).len() as int),
        j != c,
    ensures
        !spec_region_in_chunk(p.ratio_offset as int, 3, 32 * j, spec_chunk(data, j).len() as int),
        32 * j + spec_chunk(data, j).len() <= p.ratio_offset || p.ratio_offset + 3 <= 32 * j,
{
    lemma_chunk_len(data, c);
    lemma_chunk_len(data, j);
    let off = p.ratio_offset as int;
    if j < c {
        assert(32 * j + 32 <= 32 * c);
        assert(32 * j + spec_chunk(data, j).len() <= off);
    } else {
        assert(32 * c + 32 <= 32 * j);
        assert(off + 3 <= 32 * j);
    }
}

/// Index-wise reading of a region write: the written bytes at the region,
/// the old bytes everywhere else, the length unchanged.
proof fn lemma_write_region_index(data: Seq<u8>, off: int, v: Seq<u8>)
    requires
        0 <= off,
        off + 3 <= data.len(),
        v.len() == 3,
    ensures
        spec_write_region(data, off, v).len() == data.len(),
        forall|k: int|
            0 <= k < data.len() && !(off <= k < off + 3) ==> spec_write_region(data, off, v)[k]
                == data[k],
        forall|k: int| off <= k < off + 3 ==> spec_write_region(data, off, v)[k] == v[k - off],
{
}

/// Chunk by chunk, a write into the region the candidate captured changes
/// neither the masked stream nor, once past that chunk, anything but the
/// captured value, which becomes the written bytes.
proof fn lemma_patched_upto(p: Patch, data: Seq<u8>, v: Seq<u8>, c: int, i: int)
    requires
        v.len() == 3,
        0 <= c < spec_num_chunks(data.len() as int),
        spec_region_in_chunk(p.ratio_offset as int, 3, 32 * c, spec_chunk(data, c).len() as int),
        0 <= i <= spec_num_chunks(data.len() as int),
    ensures
        spec_masked_upto(p, spec_write_region(data, p.ratio_offset as int, v), i)
            == spec_masked_upto(p, data, i),
        spec_captured_upto(p, spec_write_region(data, p.ratio_offset as int, v), i) == (if c < i {
            Some(v)
        } else {
            None::<Seq<u8>>
        }),
    decreases i,
{
    let off = p.ratio_offset as int;
    let data2 = spec_write_region(data, off, v);
    lemma_chunk_len(data, c);
    lemma_write_region_index(data, off, v);
    assert(data2.len() == data.len());
    if i > 0 {
        lemma_patched_upto(p, data, v, c, i - 1);
        lemma_chunk_len(data, i - 1);
        let ch = spec_chunk(data, i - 1);
        let ch2 = spec_chunk(data2, i - 1);
        assert(ch2.len() == ch.len());
        if i - 1 == c {
            let loc = off - 32 * c;
            assert(ch2.take(loc) =~= ch.take(loc));
            assert(ch2.skip(loc + 3) =~= ch.skip(loc + 3));
            assert(spec_masked_chunk(p, ch2, 32 * (i - 1)) == spec_masked_chunk(
                p,
                ch,
                32 * (i - 1),
            ));
            assert(data2.subrange(off, off + 3) =~= v);
        } else {
            lemma_region_chunk_unique(p, data, c, i - 1);
            assert(ch2 =~= ch);
        }
    }
}

/// Writing any 3-byte value into the region of a candidate that captured
/// its region leaves the candidate's masked stream unchanged, makes the
/// captured value the written bytes, and so preserves a digest match.
pub proof fn lemma_patched_file(p: Patch, data: Seq<u8>, v: Seq<u8>)
    requires
        spec_captured(p, data) is Some,
        v.len() == 3,
    ensures
        spec_masked(p, spec_write_region(data, p.ratio_offset as int, v)) == spec_masked(p, data),
        spec_captured(p, spec_write_region(data, p.ratio_offset as int, v)) == Some(v),
        spec_patch_matches(p, data) ==> spec_patch_matches(
            p,
            spec_write_region(data, p.ratio_offset as int, v),
        ),
{
    let off = p.ratio_offset as int;
    let n = spec_num_chunks(data.len() as int);
    lemma_captured_upto_some(p, data, n);
    let c = choose|c: int|
        0 <= c < n && #[trigger] spec_region_in_chunk(
            off,
            3,
            32 * c,
            spec_chunk(data, c).len() as int,
        );
    lemma_chunk_len(data, c);
    lemma_write_region_index(data, off, v);
    lemma_patched_upto(p, data, v, c, n);
    assert(spec_write_region(data, off, v).len() == data.len());
}

/// Detection returns the candidate at `i` exactly when it matches and no
/// earlier candidate does.
pub proof fn lemma_detect_at(cat: Seq<Patch>, data: Seq<u8>, i: int)
    requires
        0 <= i < cat.len(),
        spec_patch_matches(cat[i], data),
        forall|j: int| 0 <= j < i ==> !spec_patch_matches(#[trigger] cat[j], data),
    ensures
        spec_detect(cat, data) matches Some(r) && r.0 == cat[i] && Some(r.1) == spec_captured(
            cat[i],
            data,
        ),
    decreases i,
{
    if i == 0 {
    } else {
        assert(!spec_patch_matches(cat[0], data));
        let rest = cat.drop_first();
        assert(forall|k: int| 0 <= k < rest.len() ==> rest[k] == cat[k + 1]);
        lemma_detect_at(rest, data, i - 1);
    }
}

/// Detection fails when no candidate matches.
pub proof fn lemma_detect_none(cat: Seq<Patch>, data: Seq<u8>)
    requires
        forall|j: int| 0 <= j < cat.len() ==> !spec_patch_matches(#[trigger] cat[j], data),
    ensures
        spec_detect(cat, data) is None,
    decreases cat.len(),
{
    if cat.len() > 0 {
        let rest = cat.drop_first();
        assert(forall|k: int| 0 <= k < rest.len() ==> rest[k] == cat[k + 1]);
        lemma_detect_none(rest, data);
    }
}

/// The masked stream keeps the stream's length: after `i` chunks it holds
/// exactly the bytes consumed so far.
proof fn lemma_masked_upto_len(p: Patch, data: Seq<u8>, i: int)
    requires
        0 <= i <= spec_num_chunks(data.len() as int),
    ensures
        spec_masked_upto(p, data, i).len() == (if 32 * i <= data.len() {
            32 * i
        } else {
            data.len() as int
        }),
    decreases i,
{
    if i > 0 {
        lemma_masked_upto_len(p, data, i - 1);
        lemma_chunk_len(data, i - 1);
    }
}

/// Index-wise reading of the masked stream of a candidate whose region sits
/// strictly inside chunk `c`: the canonical bytes over the region, the
/// file's own bytes everywhere else.
proof fn lemma_masked_upto_index(p: Patch, data: Seq<u8>, c: int, i: int, k: int)
    requires
        0 <= c < spec_num_chunks(data.len() as int),
        spec_region_in_chunk(p.ratio_offset as int, 3, 32 * c, spec_chunk(data, c).len() as int),
        0 <= i <= spec_num_chunks(data.len() as int),
        0 <= k < spec_masked_upto(p, data, i).len(),
    ensures
        spec_masked_upto(p, data, i)[k] == (if p.ratio_offset <= k < p.ratio_offset + 3 {
            spec_canonical()[k - p.ratio_offset]
        } else {
            data[k]
        }),
    decreases i,
{
    let off = p.ratio_offset as int;
    lemma_masked_upto_len(p, data, i);
    assert(i > 0);
    lemma_masked_upto_len(p, data, i - 1);
    lemma_chunk_len(data, i - 1);
    let prev = spec_masked_upto(p, data, i - 1);
    let ch = spec_chunk(data, i - 1);
    if k < prev.len() {
        lemma_masked_upto_index(p, data, c, i - 1, k);
    } else {
        let j = k - 32 * (i - 1);
        assert(0 <= j < ch.len());
        assert(ch[j] == data[k]);
        if i - 1 == c {
            let loc = off - 32 * c;
            assert(spec_region_in_chunk(off, 3, 32 * (i - 1), ch.len() as int));
            let mch = spec_masked_chunk(p, ch, 32 * (i - 1));
            assert(mch == ch.take(loc) + spec_canonical() + ch.skip(loc + 3));
            if j < loc {
                assert(mch[j] == ch[j]);
                assert(k < off);
            } else if j < loc + 3 {
                assert(mch[j] == spec_canonical()[j - loc]);
            } else {
                assert(mch[j] == ch.skip(loc + 3)[j - loc - 3]);
                assert(ch.skip(loc + 3)[j - loc - 3] == ch[j]);
                assert(k >= off + 3);
            }
        } else {
            lemma_region_chunk_unique(p, data, c, i - 1);
            assert(spec_masked_chunk(p, ch, 32 * (i - 1)) == ch);
            assert(!(off <= k < off + 3));
        }
    }
}

/// Outside the mutable region the digest stream reads the file's own bytes:
/// two equally long files that differ at any byte outside a captured
/// candidate's region feed that candidate different digest streams. That
/// SHA-256 then tells the two streams apart — so that detection of the
/// other file fails — is the digest's collision resistance, which is
/// assumed of the outside implementation rather than modeled.
pub proof fn lemma_masked_streams_differ(p: Patch, a: Seq<u8>, b: Seq<u8>, k: int)
    requires
        a.len() == b.len(),
        spec_captured(p, a) is Some,
        0 <= k < a.len(),
        !(p.ratio_offset <= k < p.ratio_offset + 3),
        a[k] != b[k],
    ensures
        spec_masked(p, a) != spec_masked(p, b),
{
    let n = spec_num_chunks(a.len() as int);
    lemma_captured_upto_some(p, a, n);
    let c = choose|c: int|
        0 <= c < n && #[trigger] spec_region_in_chunk(
            p.ratio_offset as int,
            3,
            32 * c,
            spec_chunk(a, c).len() as int,
        );
    lemma_chunk_len(a, c);
    lemma_chunk_len(b, c);
    lemma_masked_upto_len(p, a, n);
    lemma_masked_upto_len(p, b, n);
    lemma_masked_upto_index(p, a, c, n, k);
    lemma_masked_upto_index(p, b, c, n, k);
    assert(spec_masked(p, a)[k] == a[k]);
    assert(spec_masked(p, b)[k] == b[k]);
}

/// Inverse reading of detection: a result names a catalog entry that
/// matches with no earlier match; no result means no entry matches.
pub proof fn lemma_detect_inv(cat: Seq<Patch>, data: Seq<u8>)
    ensures
        match spec_detect(cat, data) {
            Some(r) => exists|i: int|
                0 <= i < cat.len() && r.0 == cat[i] && #[trigger] spec_patch_matches(cat[i], data)
                    && spec_captured(cat[i], data) == Some(r.1),
            None => forall|i: int| 0 <= i < cat.len() ==> !spec_patch_matches(
                #[trigger] cat[i],
                data,
            ),
        },
    decreases cat.len(),
{
    if cat.len() > 0 {
        let rest = cat.drop_first();
        assert(forall|k: int| 0 <= k < rest.len() ==> rest[k] == cat[k + 1]);
        lemma_detect_inv(rest, data);
        if spec_patch_matches(cat[0], data) {
            if let Some(r) = spec_detect(cat, data) {
                assert(0 <= 0 < cat.len() && r.0 == cat[0] && spec_patch_matches(cat[0], data)
                    && spec_captured(cat[0], data) == Some(r.1));
            }
        } else {
            match spec_detect(rest, data) {
                Some(r) => {
                    let i = choose|i: int|
                        0 <= i < rest.len() && r.0 == rest[i] && #[trigger] spec_patch_matches(
                            rest[i],
                            data,
                        ) && spec_captured(rest[i], data) == Some(r.1);
                    assert(cat[i + 1] == rest[i]);
                    assert(0 <= i + 1 < cat.len() && r.0 == cat[i + 1] && spec_patch_matches(
                        cat[i + 1],
                        data,
                    ) && spec_captured(cat[i + 1], data) == Some(r.1));
                },
                None => {
                    assert forall|i: int| 0 <= i < cat.len() implies !spec_patch_matches(
                        #[trigger] cat[i],
                        data,
                    ) by {
                        if i > 0 {
                            assert(cat[i] == rest[i - 1]);
                            assert(!spec_patch_matches(rest[i - 1], data));
                        }
                    }
                },
            }
        }
    }
}

/// Detection never points outside the file: a successfully detected
/// candidate's region, margin byte included, lies inside it.
pub proof fn lemma_detected_region_in_bounds(cat: Seq<Patch>, data: Seq<u8>)
    ensures
        spec_detect(cat, data) matches Some(r) ==> r.0.ratio_offset + 3 < data.len(),
{
    lemma_detect_inv(cat, data);
    if let Some(r) = spec_detect(cat, data) {
        let i = choose|i: int|
            0 <= i < cat.len() && r.0 == cat[i] && #[trigger] spec_patch_matches(cat[i], data)
                && spec_captured(cat[i], data) == Some(r.1);
        lemma_captured_in_bounds(cat[i], data);
    }
}

/// A file too short to hold any candidate's region with its margin — a
/// truncated file — is detected as nothing.
pub proof fn lemma_truncated_undetected(cat: Seq<Patch>, data: Seq<u8>)
    requires
        forall|j: int| 0 <= j < cat.len() ==> data.len() <= (#[trigger] cat[j]).ratio_offset + 3,
    ensures
        spec_detect(cat, data) is None,
{
    assert forall|j: int| 0 <= j < cat.len() implies !spec_patch_matches(
        #[trigger] cat[j],
        data,
    ) by {
        if spec_captured(cat[j], data) is Some {
            lemma_captured_in_bounds(cat[j], data);
        }
    }
    lemma_detect_none(cat, data);
}

/// A zero-length file is detected as nothing, whatever the catalog.
pub proof fn lemma_zero_length_undetected(cat: Seq<Patch>)
    ensures
        spec_detect(cat, Seq::<u8>::empty()) is None,
{
    lemma_truncated_undetected(cat, Seq::<u8>::empty());
}

/// Patch then re-detect: writing a value `v` into the region of a matching
/// candidate yields a file that the same candidate matches with captured
/// region exactly `v`; and if no earlier candidate matches the rewritten
/// file, detection returns that candidate and `v`. A file that is a
/// candidate's reference file with any region value is such a `data`, so
/// this also says that every known value written over the region is
/// detected and captured as itself.
pub proof fn lemma_patch_roundtrip(cat: Seq<Patch>, data: Seq<u8>, i: int, v: Seq<u8>)
    requires
        0 <= i < cat.len(),
        spec_patch_matches(cat[i], data),
        v.len() == 3,
        forall|j: int|
            0 <= j < i ==> !spec_patch_matches(
                #[trigger] cat[j],
                spec_write_region(data, cat[i].ratio_offset as int, v),
            ),
    ensures
        spec_detect(cat, spec_write_region(data, cat[i].ratio_offset as int, v)) matches Some(r)
            && r.0 == cat[i] && r.1 == v,
{
    lemma_patched_file(cat[i], data, v);
    lemma_detect_at(cat, spec_write_region(data, cat[i].ratio_offset as int, v), i);
}

/// Two consecutive writes to the same region: the second wins outright, as
/// if the first had never happened.
pub proof fn lemma_second_patch_wins(data: Seq<u8>, off: int, a: Seq<u8>, b: Seq<u8>)
    requires
        0 <= off,
        off + 3 <= data.len(),
        a.len() == 3,
        b.len() == 3,
    ensures
        spec_write_region(spec_write_region(data, off, a), off, b) == spec_write_region(
            data,
            off,
            b,
        ),
{
    assert(spec_write_region(spec_write_region(data, off, a), off, b) =~= spec_write_region(
        data,
        off,
        b,
    ));
}

} // verus!
