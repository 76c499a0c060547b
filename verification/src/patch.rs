//! The candidate catalog, the streaming multi-candidate detector, and the
//! patch-apply operation on an in-memory image of a binary file.
//!
//! A candidate's identity is the SHA-256 digest of its file taken over a
//! stream in which the candidate's own 3-byte mutable region has been
//! replaced by the canonical value, so a legitimately repatched copy still
//! matches while any other byte difference does not.

mod items;

use vstd::prelude::*;
use vstd::slice::slice_subrange;

use crate::error_code::ErrorCode;
use crate::hash::{absorbed, sha256_of, Sha256State};
use crate::ratio::{Ratio, RATIO_LENGTH};

pub use items::{spec_en_992_sha2, spec_known_catalog, spec_ru_1008_sha2, spec_zoom_sha2};

verus! {

broadcast use vstd::array::group_array_axioms;

/// Bytes consumed per step of the detector's forward pass. The masking rule
/// is relative to these chunk boundaries, so this length is load-bearing:
/// a candidate is detected only when its mutable region lies strictly inside
/// one such chunk.
pub const CHUNK_LEN: usize = 32;

/// One known binary variant: its display name, the SHA-256 digest of its
/// reference file, and the byte offset of its 3-byte mutable region.
#[derive(Debug)]
pub struct Patch {
    pub name: &'static str,
    pub sha2: [u8; 32],
    pub ratio_offset: usize,
}

impl Patch {
    pub fn name(&self) -> (r: &'static str)
        ensures
            r == self.name,
    {
        self.name
    }

    /// The SHA-256 digest of the variant's reference file, computed with the
    /// mutable region held at its canonical value.
    pub fn sha2(&self) -> (r: &[u8; 32])
        ensures
            r@ == self.sha2@,
    {
        &self.sha2
    }

    /// Offset of the mutable region from the first byte of the file.
    pub fn ratio_offset(&self) -> (r: usize)
        ensures
            r == self.ratio_offset,
    {
        self.ratio_offset
    }

    /// Length of the mutable region in bytes.
    pub fn ratio_len(&self) -> (r: usize)
        ensures
            r == RATIO_LENGTH,
    {
        RATIO_LENGTH
    }
}

/// The fixed catalog of known variants, in its fixed order.
pub fn get_all_patches() -> (r: Vec<Patch>)
    ensures
        spec_known_catalog(r@),
{
    let mut v: Vec<Patch> = Vec::new();
    v.push(items::patch_ru_1008());
    v.push(items::patch_en_992());
    v.push(items::patch_zoom());
    v
}

/// The canonical bytes assumed to sit in the mutable region when hashing.
pub open spec fn spec_canonical() -> Seq<u8> {
    Ratio::Original.spec_hex()
}

/// Whether a region of `rlen` bytes at `offset` lies strictly inside the
/// chunk of `clen` bytes that starts after `consumed` bytes of the stream:
/// strictly after the chunk's first byte and ending with at least one
/// non-region byte of margin before the chunk's end.
pub open spec fn spec_region_in_chunk(offset: int, rlen: int, consumed: int, clen: int) -> bool {
    offset > consumed && offset + rlen < consumed + clen
}

/// What one chunk contributes to a candidate's digest stream: the chunk
/// itself, except that a region lying strictly inside the chunk is replaced
/// by the canonical value.
pub open spec fn spec_masked_chunk(p: Patch, chunk: Seq<u8>, consumed: int) -> Seq<u8> {
    let off = p.ratio_offset as int;
    if spec_region_in_chunk(off, RATIO_LENGTH as int, consumed, chunk.len() as int) {
        chunk.take(off - consumed) + spec_canonical() + chunk.skip(off - consumed + 3)
    } else {
        chunk
    }
}

/// Where the chunk starting at `start` ends, in a stream of `len` bytes.
pub open spec fn spec_chunk_end(len: int, start: int) -> int {
    if start + 32 <= len {
        start + 32
    } else {
        len
    }
}

/// The `i`-th 32-byte chunk of `data` (the last one may be shorter).
pub open spec fn spec_chunk(data: Seq<u8>, i: int) -> Seq<u8> {
    data.subrange(32 * i, spec_chunk_end(data.len() as int, 32 * i))
}

/// How many chunks a stream of `len` bytes falls into.
pub open spec fn spec_num_chunks(len: int) -> int {
    (len + 31) / 32
}

/// The digest stream a candidate accumulates over the first `i` chunks.
pub open spec fn spec_masked_upto(p: Patch, data: Seq<u8>, i: int) -> Seq<u8>
    decreases i,
{
    if i <= 0 {
        Seq::empty()
    } else {
        spec_masked_upto(p, data, i - 1) + spec_masked_chunk(p, spec_chunk(data, i - 1), 32 * (i
            - 1))
    }
}

/// The full digest stream of a candidate over a file image: the file with
/// the candidate's mutable region replaced by the canonical value, provided
/// the region sat strictly inside one chunk.
pub open spec fn spec_masked(p: Patch, data: Seq<u8>) -> Seq<u8> {
    spec_masked_upto(p, data, spec_num_chunks(data.len() as int))
}

/// The region bytes a candidate has captured after the first `i` chunks:
/// present exactly when some chunk so far held the region strictly inside.
pub open spec fn spec_captured_upto(p: Patch, data: Seq<u8>, i: int) -> Option<Seq<u8>>
    decreases i,
{
    if i <= 0 {
        None
    } else {
        let off = p.ratio_offset as int;
        if spec_region_in_chunk(off, RATIO_LENGTH as int, 32 * (i - 1), spec_chunk(data, i - 1).len() as int) {
            Some(data.subrange(off, off + 3))
        } else {
            spec_captured_upto(p, data, i - 1)
        }
    }
}

/// The region bytes a candidate captures over the whole file image.
pub open spec fn spec_captured(p: Patch, data: Seq<u8>) -> Option<Seq<u8>> {
    spec_captured_upto(p, data, spec_num_chunks(data.len() as int))
}

/// Whether a file image matches a candidate: the digest of its masked
/// stream equals the candidate's reference digest and the mutable region was
/// captured from some chunk.
pub open spec fn spec_patch_matches(p: Patch, data: Seq<u8>) -> bool {
    sha256_of(spec_masked(p, data)) == p.sha2@ && spec_captured(p, data) is Some
}

/// The outcome of detection: the first candidate, in catalog order, that the
/// file image matches, together with the captured region bytes.
pub open spec fn spec_detect(catalog: Seq<Patch>, data: Seq<u8>) -> Option<(Patch, Seq<u8>)>
    decreases catalog.len(),
{
    if catalog.len() == 0 {
        None
    } else if spec_patch_matches(catalog[0], data) {
        match spec_captured(catalog[0], data) {
            Some(v) => Some((catalog[0], v)),
            None => None,
        }
    } else {
        spec_detect(catalog.drop_first(), data)
    }
}

/// The captured region bytes of a detector, as a sequence.
pub open spec fn spec_ratio_view(o: Option<[u8; 3]>) -> Option<Seq<u8>> {
    match o {
        Some(a) => Some(a@),
        None => None,
    }
}

/// One candidate's streaming state: its digest accumulator, the region bytes
/// seen so far (if any chunk held them strictly inside), and how many bytes
/// of the stream have been consumed.
pub struct BinaryDetector {
    pub patch: Patch,
    pub hasher: Sha256State,
    pub ratio: Option<[u8; 3]>,
    pub byte_count: usize,
}

impl BinaryDetector {
    pub fn new(patch: Patch) -> (r: BinaryDetector)
        ensures
            r.patch == patch,
            absorbed(r.hasher) == Seq::<u8>::empty(),
            r.ratio is None,
            r.byte_count == 0,
    {
        BinaryDetector { patch, hasher: Sha256State::new(), ratio: None, byte_count: 0 }
    }

    /// Feeds one chunk of the stream: the digest accumulator absorbs the
    /// chunk with the candidate's region masked to the canonical value when
    /// the region lies strictly inside it, in which case the bytes actually
    /// present are captured; any other chunk is absorbed unchanged.
    pub fn update(&mut self, data: &[u8])
        requires
            old(self).byte_count + data@.len() <= usize::MAX,
        ensures
            final(self).patch == old(self).patch,
            final(self).byte_count == old(self).byte_count + data@.len(),
            absorbed(final(self).hasher) == absorbed(old(self).hasher) + spec_masked_chunk(
                old(self).patch,
                data@,
                old(self).byte_count as int,
            ),
            spec_ratio_view(final(self).ratio) == ({
                let off = old(self).patch.ratio_offset as int;
                let bc = old(self).byte_count as int;
                if spec_region_in_chunk(off, RATIO_LENGTH as int, bc, data@.len() as int) {
                    Some(data@.subrange(off - bc, off - bc + 3))
                } else {
                    spec_ratio_view(old(self).ratio)
                }
            }),
    {
        let count = data.len();
        let off = self.patch.ratio_offset;
        let bc = self.byte_count;
        let ghost off_i = off as int;
        let ghost bc_i = bc as int;
        if off > bc && off - bc < count && count - (off - bc) > 3 {
            let loc = off - bc;
            let pre = slice_subrange(data, 0, loc);
            self.hasher.update(pre);
            let canon = Ratio::Original.hex();
            self.hasher.update(canon.as_slice());
            let post = slice_subrange(data, loc + 3, count);
            self.hasher.update(post);
            let cap: [u8; 3] = [data[loc], data[loc + 1], data[loc + 2]];
            self.ratio = Some(cap);
            proof {
                assert(spec_region_in_chunk(off_i, 3, bc_i, data@.len() as int));
                assert(pre@ =~= data@.take(off_i - bc_i));
                assert(post@ =~= data@.skip(off_i - bc_i + 3));
                assert(absorbed(self.hasher) =~= absorbed(old(self).hasher) + spec_masked_chunk(
                    old(self).patch,
                    data@,
                    bc_i,
                ));
                assert(cap@ =~= data@.subrange(off_i - bc_i, off_i - bc_i + 3));
            }
        } else {
            self.hasher.update(data);
            proof {
                assert(!spec_region_in_chunk(off_i, 3, bc_i, data@.len() as int));
            }
        }
        self.byte_count = self.byte_count + count;
    }

    /// Closes the pass: the candidate is detected exactly when its finalized
    /// digest equals its reference digest and its region was captured.
    pub fn finish(self) -> (r: Option<(Patch, [u8; 3])>)
        ensures
            ({
                let matched = sha256_of(absorbed(self.hasher)) == self.patch.sha2@
                    && self.ratio is Some;
                if matched {
                    r matches Some((p, c)) && p == self.patch && Some(c) == self.ratio
                } else {
                    r is None
                }
            }),
    {
        let BinaryDetector { patch, hasher, ratio, byte_count: _ } = self;
        let digest = hasher.finalize();
        if digest_eq(&digest, &patch.sha2) {
            match ratio {
                Some(c) => Some((patch, c)),
                None => None,
            }
        } else {
            None
        }
    }
}

/// Whether a digest equals an expected 32-byte digest, byte for byte.
fn digest_eq(d: &Vec<u8>, e: &[u8; 32]) -> (r: bool)
    ensures
        r <==> d@ == e@,
{
    if d.len() != 32 {
        return false;
    }
    let mut i: usize = 0;
    while i < 32
        invariant
            i <= 32,
            d@.len() == 32,
            forall|j: int| 0 <= j < i ==> d@[j] == e@[j],
        decreases 32 - i,
    {
        if d[i] != e[i] {
            return false;
        }
        i = i + 1;
    }
    proof {
        assert(d@ =~= e@);
    }
    true
}

/// Runs every candidate of `catalog` over `data` in a single forward pass of
/// 32-byte chunks and returns the first candidate, in catalog order, whose
/// digest matches and whose region was captured, with the captured bytes.
pub fn detect(catalog: Vec<Patch>, data: &[u8]) -> (r: Option<(Patch, [u8; 3])>)
    ensures
        match spec_detect(catalog@, data@) {
            Some((p, v)) => r matches Some((rp, rv)) && rp == p && rv@ == v,
            None => r is None,
        },
{
    let n = data.len();
    let mut dets: Vec<BinaryDetector> = Vec::new();
    let mut cat = catalog;
    while cat.len() > 0
        invariant
            dets@.len() + cat@.len() == catalog@.len(),
            cat@ == catalog@.skip(dets@.len() as int),
            forall|t: int|
                0 <= t < dets@.len() ==> (#[trigger] dets@[t]).patch == catalog@[t] && absorbed(
                    dets@[t].hasher,
                ) == Seq::<u8>::empty() && dets@[t].ratio is None && dets@[t].byte_count == 0,
        decreases cat@.len(),
    {
        let p = cat.remove(0);
        proof {
            assert(catalog@.skip(dets@.len() as int)[0] == catalog@[dets@.len() as int]);
            assert(catalog@.skip(dets@.len() as int).remove(0) =~= catalog@.skip(
                dets@.len() + 1 as int,
            ));
        }
        dets.push(BinaryDetector::new(p));
    }
    let mut pos: usize = 0;
    let ghost mut ci: int = 0;
    proof {
        assert(forall|t: int|
            0 <= t < dets@.len() ==> absorbed((#[trigger] dets@[t]).hasher) == spec_masked_upto(
                catalog@[t],
                data@,
                0,
            ));
    }
    while pos < n
        invariant
            n == data@.len(),
            dets@.len() == catalog@.len(),
            0 <= ci <= spec_num_chunks(n as int),
            if 32 * ci < n {
                pos == 32 * ci
            } else {
                pos == n && ci == spec_num_chunks(n as int)
            },
            pos <= n,
            forall|t: int|
                0 <= t < dets@.len() ==> (#[trigger] dets@[t]).patch == catalog@[t]
                    && dets@[t].byte_count == pos && absorbed(dets@[t].hasher) == spec_masked_upto(
                    catalog@[t],
                    data@,
                    ci,
                ) && spec_ratio_view(dets@[t].ratio) == spec_captured_upto(catalog@[t], data@, ci),
        decreases n - pos,
    {
        let k = if n - pos < CHUNK_LEN {
            n - pos
        } else {
            CHUNK_LEN
        };
        let chunk = slice_subrange(data, pos, pos + k);
        proof {
            assert(32 * ci < n);
            assert(pos == 32 * ci);
            assert(chunk@ =~= spec_chunk(data@, ci));
        }
        let mut j: usize = 0;
        while j < dets.len()
            invariant
                j <= dets@.len() == catalog@.len(),
                n == data@.len(),
                pos + k <= n,
                pos == 32 * ci,
                0 <= ci,
                chunk@ == spec_chunk(data@, ci),
                chunk@ == data@.subrange(pos as int, pos + k),
                k == chunk@.len(),
                forall|t: int|
                    j <= t < dets@.len() ==> (#[trigger] dets@[t]).patch == catalog@[t]
                        && dets@[t].byte_count == pos && absorbed(dets@[t].hasher)
                        == spec_masked_upto(catalog@[t], data@, ci) && spec_ratio_view(
                        dets@[t].ratio,
                    ) == spec_captured_upto(catalog@[t], data@, ci),
                forall|t: int|
                    0 <= t < j ==> (#[trigger] dets@[t]).patch == catalog@[t]
                        && dets@[t].byte_count == pos + k && absorbed(dets@[t].hasher)
                        == spec_masked_upto(catalog@[t], data@, ci + 1) && spec_ratio_view(
                        dets@[t].ratio,
                    ) == spec_captured_upto(catalog@[t], data@, ci + 1),
            decreases dets@.len() - j,
        {
            let ghost p = dets@[j as int].patch;
            let d = &mut dets[j];
            d.update(chunk);
            proof {
                let off = p.ratio_offset as int;
                assert(spec_masked_upto(p, data@, ci + 1) == spec_masked_upto(p, data@, ci)
                    + spec_masked_chunk(p, spec_chunk(data@, ci), 32 * ci));
                if spec_region_in_chunk(off, 3, pos as int, k as int) {
                    assert(chunk@.subrange(off - pos, off - pos + 3) =~= data@.subrange(
                        off,
                        off + 3,
                    ));
                }
            }
            j = j + 1;
        }
        pos = pos + k;
        proof {
            ci = ci + 1;
            if pos < n {
                assert(32 * ci == pos);
            } else {
                assert(pos == n);
                assert(ci == spec_num_chunks(n as int));
            }
        }
    }
    proof {
        if n == 0 {
            assert(spec_num_chunks(0) == 0);
            assert(ci == 0);
        }
        assert(ci == spec_num_chunks(n as int));
    }
    let ghost total = spec_num_chunks(n as int);
    let mut idx: usize = 0;
    let mut rest = dets;
    let total_n = rest.len();
    proof {
        assert(catalog@.skip(0) =~= catalog@);
    }
    while rest.len() > 0
        invariant
            idx + rest@.len() == total_n,
            idx + rest@.len() == catalog@.len(),
            n == data@.len(),
            spec_detect(catalog@, data@) == spec_detect(catalog@.skip(idx as int), data@),
            forall|t: int|
                0 <= t < rest@.len() ==> (#[trigger] rest@[t]).patch == catalog@[idx + t]
                    && absorbed(rest@[t].hasher) == spec_masked(catalog@[idx + t], data@)
                    && spec_ratio_view(rest@[t].ratio) == spec_captured(catalog@[idx + t], data@),
        decreases rest@.len(),
    {
        let ghost skipped = catalog@.skip(idx as int);
        let d = rest.remove(0);
        proof {
            assert(skipped[0] == catalog@[idx as int]);
            assert(skipped.drop_first() =~= catalog@.skip(idx + 1));
        }
        match d.finish() {
            Some(x) => {
                proof {
                    assert(spec_patch_matches(catalog@[idx as int], data@));
                }
                return Some(x);
            },
            None => {
                proof {
                    assert(!spec_patch_matches(catalog@[idx as int], data@));
                }
            },
        }
        idx = idx + 1;
    }
    proof {
        assert(catalog@.skip(idx as int).len() == 0);
    }
    None
}

/// A file image `data` with the 3 bytes at `off` replaced by `v`.
pub open spec fn spec_write_region(data: Seq<u8>, off: int, v: Seq<u8>) -> Seq<u8>
    recommends
        0 <= off,
        off + 3 <= data.len(),
        v.len() == 3,
{
    data.take(off) + v + data.skip(off + 3)
}

/// Overwrites exactly the 3 bytes at `offset` of the in-memory file image;
/// every other byte stays as it was.
pub fn write_region(file: &mut Vec<u8>, offset: usize, value: &[u8; 3])
    requires
        offset + 3 <= old(file)@.len(),
    ensures
        final(file)@ == spec_write_region(old(file)@, offset as int, value@),
{
    let n = file.len();
    proof {
        assert(offset + 3 <= n);
    }
    let v0 = value[0];
    let v1 = value[1];
    let v2 = value[2];
    file[offset] = v0;
    file[offset + 1] = v1;
    file[offset + 2] = v2;
    proof {
        assert(file@ =~= spec_write_region(old(file)@, offset as int, value@));
    }
}

/// Binds a file path to a one-time detection outcome: the detected variant
/// and a mirror of the region bytes last observed or written. The mirror is
/// advisory; if the file changes behind the handle's back, only a fresh
/// detection can tell.
#[derive(Debug)]
pub struct Binary {
    pub path: String,
    pub patch: Patch,
    pub aspect: [u8; 3],
}

impl Binary {
    /// Detect-or-fail constructor over an explicit catalog: `data` is the
    /// contents of the file at `path`.
    pub fn with_catalog(catalog: Vec<Patch>, path: String, data: &[u8]) -> (r: Result<
        Binary,
        ErrorCode,
    >)
        ensures
            match spec_detect(catalog@, data@) {
                Some((p, v)) => r matches Ok(b) && b.patch == p && b.aspect@ == v && b.path
                    == path,
                None => r matches Err(e) && e matches ErrorCode::IncorrectHashOfBinary(s) && s@
                    == path@,
            },
    {
        match detect(catalog, data) {
            Some((patch, aspect)) => Ok(Binary { path, patch, aspect }),
            None => Err(ErrorCode::IncorrectHashOfBinary(path)),
        }
    }

    /// Detect-or-fail constructor over the fixed catalog of known variants.
    pub fn new(path: String, data: &[u8]) -> (r: Result<Binary, ErrorCode>)
        ensures
            exists|c: Seq<Patch>|
                #[trigger] spec_known_catalog(c) && match spec_detect(c, data@) {
                    Some((p, v)) => r matches Ok(b) && b.patch == p && b.aspect@ == v && b.path
                        == path,
                    None => r matches Err(e) && e matches ErrorCode::IncorrectHashOfBinary(s)
                        && s@ == path@,
                },
    {
        let catalog = get_all_patches();
        let ghost c = catalog@;
        let r = Self::with_catalog(catalog, path, data);
        proof {
            assert(spec_known_catalog(c) && match spec_detect(c, data@) {
                Some((p, v)) => r matches Ok(b) && b.patch == p && b.aspect@ == v && b.path
                    == path,
                None => r matches Err(e) && e matches ErrorCode::IncorrectHashOfBinary(s) && s@
                    == path@,
            });
        }
        r
    }

    /// The mirrored region value, decoded into its named ratio.
    pub fn ratio(&self) -> (r: Result<Ratio, ErrorCode>)
        ensures
            match Ratio::spec_from_hex(self.aspect@) {
                Some(t) => r == Ok::<Ratio, ErrorCode>(t),
                None => r matches Err(ErrorCode::UnknownRatio),
            },
    {
        Ratio::from_hex(&self.aspect)
    }

    /// Applies `ratio` to the in-memory image `file` of the bound file:
    /// overwrites exactly the 3 region bytes at the detected offset, leaves
    /// every other byte as it was, and updates the mirror. The offset is
    /// trusted from detection; the caller must hand the image the region
    /// still fits in.
    pub fn set_ratio(&mut self, file: &mut Vec<u8>, ratio: Ratio) -> (r: Result<(), ErrorCode>)
        requires
            old(self).patch.ratio_offset + 3 <= old(file)@.len(),
        ensures
            r is Ok,
            final(file)@ == spec_write_region(
                old(file)@,
                old(self).patch.ratio_offset as int,
                ratio.spec_hex(),
            ),
            final(self).patch == old(self).patch,
            final(self).path == old(self).path,
            final(self).aspect@ == ratio.spec_hex(),
    {
        let hex = ratio.hex();
        write_region(file, self.patch.ratio_offset, &hex);
        self.aspect = hex;
        Ok(())
    }

    /// Records that `ratio` was written to the file through the caller's own
    /// write handle: updates the in-memory mirror only.
    pub fn record_ratio(&mut self, ratio: Ratio)
        ensures
            final(self).patch == old(self).patch,
            final(self).path == old(self).path,
            final(self).aspect@ == ratio.spec_hex(),
    {
        self.aspect = ratio.hex();
    }
}

/// Detects which known variant `data` is, returning its descriptor and the
/// bytes found in its mutable region.
pub fn get_patch_by_binary(data: &[u8]) -> (r: Option<(Patch, [u8; 3])>)
    ensures
        exists|c: Seq<Patch>|
            #[trigger] spec_known_catalog(c) && match spec_detect(c, data@) {
                Some((p, v)) => r matches Some((rp, rv)) && rp == p && rv@ == v,
                None => r is None,
            },
{
    let catalog = get_all_patches();
    let ghost c = catalog@;
    let r = detect(catalog, data);
    proof {
        assert(spec_known_catalog(c) && match spec_detect(c, data@) {
            Some((p, v)) => r matches Some((rp, rv)) && rp == p && rv@ == v,
            None => r is None,
        });
    }
    r
}

} // verus!
