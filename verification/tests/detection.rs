use sha2::Digest;

use eracer_config::error_code::ErrorCode;
use eracer_config::patch::{detect, get_all_patches, get_patch_by_binary, Binary, BinaryDetector, Patch};
use eracer_config::ratio::Ratio;

fn digest32(data: &[u8]) -> [u8; 32] {
    let mut h = sha2::Sha256::new();
    h.update(data);
    let d = h.finalize();
    let mut out = [0u8; 32];
    out.copy_from_slice(&d);
    out
}

/// A synthetic 100-byte file whose mutable region sits at offset 40, i.e.
/// strictly inside the second 32-byte chunk, holding `region`.
fn sample_file(region: [u8; 3]) -> Vec<u8> {
    let mut f: Vec<u8> = (0u8..100).collect();
    f[40..43].copy_from_slice(&region);
    f
}

/// The candidate that matches `sample_file`: its digest is taken over the
/// file with the canonical region value in place.
fn sample_candidate() -> Patch {
    let reference = sample_file(Ratio::Original.hex());
    Patch {
        name: "sample",
        sha2: digest32(&reference),
        ratio_offset: 40,
    }
}

#[test]
fn detects_reference_file_with_any_known_region_value() {
    let all = [
        Ratio::Original,
        Ratio::W5H4,
        Ratio::W25H16,
        Ratio::W16H10,
        Ratio::W15H9,
        Ratio::W16H9,
        Ratio::W21H9,
    ];
    for r in all {
        let file = sample_file(r.hex());
        let found = detect(vec![sample_candidate()], &file);
        let (p, captured) = found.expect("the candidate must be detected");
        assert_eq!(p.name, "sample");
        assert_eq!(captured, r.hex());
    }
}

#[test]
fn one_byte_difference_outside_region_fails() {
    for flip in [0usize, 10, 33, 39, 43, 63, 64, 99] {
        let mut file = sample_file(Ratio::W16H9.hex());
        file[flip] ^= 0x01;
        assert!(detect(vec![sample_candidate()], &file).is_none());
    }
}

#[test]
fn zero_length_and_truncated_files_fail() {
    assert!(detect(vec![sample_candidate()], &[]).is_none());
    let file = sample_file(Ratio::Original.hex());
    for cut in [1usize, 32, 40, 41, 43, 99] {
        assert!(detect(vec![sample_candidate()], &file[..cut]).is_none());
    }
}

#[test]
fn region_on_chunk_boundary_is_never_captured() {
    // Candidates whose region starts exactly at a chunk's first byte, ends
    // exactly at a chunk's last byte, or straddles a boundary are not
    // detectable: the digest is fed the raw bytes and nothing is captured.
    for offset in [30usize, 32, 61] {
        let file: Vec<u8> = (0u8..100).collect();
        // Digest over the raw file: without masking this digest matches, so
        // a failure can only come from the missing captured region.
        let candidate = Patch {
            name: "edge",
            sha2: digest32(&file),
            ratio_offset: offset,
        };
        assert!(detect(vec![candidate], &file).is_none());
    }
}

#[test]
fn first_matching_candidate_wins() {
    let file = sample_file(Ratio::W25H16.hex());
    let other = Patch {
        name: "other",
        sha2: [0u8; 32],
        ratio_offset: 10,
    };
    let found = detect(vec![other, sample_candidate()], &file);
    assert_eq!(found.unwrap().0.name, "sample");

    let twin = Patch {
        name: "twin",
        sha2: sample_candidate().sha2,
        ratio_offset: 40,
    };
    let found = detect(vec![twin, sample_candidate()], &file);
    assert_eq!(found.unwrap().0.name, "twin");
}

#[test]
fn detector_streaming_matches_whole_file_detection() {
    let file = sample_file(Ratio::W21H9.hex());
    let mut det = BinaryDetector::new(sample_candidate());
    for chunk in file.chunks(32) {
        det.update(chunk);
    }
    let (p, captured) = det.finish().expect("streaming detection must succeed");
    assert_eq!(p.name, "sample");
    assert_eq!(captured, Ratio::W21H9.hex());

    // With a chunking that splits the region over two reads, the same file
    // yields no capture and therefore no detection.
    let mut det = BinaryDetector::new(sample_candidate());
    det.update(&file[..41]);
    det.update(&file[41..]);
    assert!(det.finish().is_none());
}

#[test]
fn patch_apply_then_redetect_roundtrip() {
    let all = [
        Ratio::Original,
        Ratio::W5H4,
        Ratio::W25H16,
        Ratio::W16H10,
        Ratio::W15H9,
        Ratio::W16H9,
        Ratio::W21H9,
    ];
    for r in all {
        let mut file = sample_file(Ratio::Original.hex());
        let mut binary =
            Binary::with_catalog(vec![sample_candidate()], "sample.bin".to_string(), &file)
                .expect("detection must succeed");
        assert!(matches!(binary.ratio(), Ok(Ratio::Original)));

        binary.set_ratio(&mut file, r).unwrap();
        assert!(matches!(binary.ratio(), Ok(v) if v == r));

        let (_, captured) = detect(vec![sample_candidate()], &file).expect("still detected");
        assert_eq!(captured, r.hex());
    }
}

#[test]
fn two_patches_leave_only_the_second() {
    let mut file = sample_file(Ratio::Original.hex());
    let before = file.clone();
    let mut binary =
        Binary::with_catalog(vec![sample_candidate()], "sample.bin".to_string(), &file).unwrap();
    binary.set_ratio(&mut file, Ratio::W15H9).unwrap();
    binary.set_ratio(&mut file, Ratio::W16H9).unwrap();
    assert_eq!(&file[40..43], &Ratio::W16H9.hex());
    assert!(matches!(binary.ratio(), Ok(Ratio::W16H9)));
    // Every byte outside the region is untouched.
    assert_eq!(file[..40], before[..40]);
    assert_eq!(file[43..], before[43..]);

    // Patching straight to the second value gives the identical file.
    let mut file2 = sample_file(Ratio::Original.hex());
    let mut binary2 =
        Binary::with_catalog(vec![sample_candidate()], "sample.bin".to_string(), &file2).unwrap();
    binary2.set_ratio(&mut file2, Ratio::W16H9).unwrap();
    assert_eq!(file, file2);
}

#[test]
fn record_ratio_updates_only_the_mirror() {
    let file = sample_file(Ratio::Original.hex());
    let mut binary =
        Binary::with_catalog(vec![sample_candidate()], "sample.bin".to_string(), &file).unwrap();
    binary.record_ratio(Ratio::W25H16);
    assert!(matches!(binary.ratio(), Ok(Ratio::W25H16)));
    assert_eq!(binary.path, "sample.bin");
}

#[test]
fn construction_fails_without_a_match() {
    let file = vec![0u8; 50];
    let err = Binary::with_catalog(vec![sample_candidate()], "bad.bin".to_string(), &file)
        .expect_err("no candidate matches");
    assert!(matches!(err, ErrorCode::IncorrectHashOfBinary(p) if p == "bad.bin"));
}

#[test]
fn fixed_catalog_contents() {
    let catalog = get_all_patches();
    assert_eq!(catalog.len(), 3);
    assert_eq!(catalog[0].name(), "RU 1008 KB");
    assert_eq!(catalog[1].name(), "EN 992 KB");
    assert_eq!(catalog[2].name(), "Zoom Platform 992 KB");
    assert_eq!(catalog[0].ratio_offset(), 0xc7ed8);
    assert_eq!(catalog[1].ratio_offset(), 0xcaefc);
    assert_eq!(catalog[2].ratio_offset(), 0xcaefc);
    assert_eq!(catalog[0].sha2()[0], 0x7a);
    assert_eq!(catalog[1].sha2()[31], 0xfc);
    assert_eq!(catalog[2].sha2()[0], 0x5e);
    assert_eq!(catalog[0].ratio_len(), 3);
}

#[test]
fn small_files_match_no_known_variant() {
    // Every known candidate's region lies megabytes in; a short file can
    // never be one of them.
    assert!(get_patch_by_binary(&[1, 2, 3, 4, 5]).is_none());
    assert!(get_patch_by_binary(&[]).is_none());
    let err = Binary::new("short.bin".to_string(), &[9u8; 64]).expect_err("cannot match");
    assert!(matches!(err, ErrorCode::IncorrectHashOfBinary(p) if p == "short.bin"));
}
