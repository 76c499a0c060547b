use eracer_config::args::{parse_ratio, parse_resolution};
use eracer_config::ratio::{Ratio, RatioStr};
use eracer_config::resolution::{Resolution, ResolutionStr};

#[test]
fn resolution_from_str() {
    assert_eq!(
        ResolutionStr("800x600".to_string()).parse(),
        Ok(Resolution {
            width: 800,
            height: 600
        })
    );

    let resolution: Result<Resolution, _> = ResolutionStr("0x0".to_string()).parse();
    assert!(resolution.is_err());

    let resolution: Result<Resolution, _> = ResolutionStr("639x479".to_string()).parse();
    assert!(resolution.is_err());

    let resolution: Result<Resolution, _> = ResolutionStr("-10x10".to_string()).parse();
    assert!(resolution.is_err());

    let resolution: Result<Resolution, _> = ResolutionStr("x10x10".to_string()).parse();
    assert!(resolution.is_err());

    let resolution: Result<Resolution, _> = ResolutionStr("x1010".to_string()).parse();
    assert!(resolution.is_err());

    let resolution: Result<Resolution, _> = ResolutionStr("10x".to_string()).parse();
    assert!(resolution.is_err());
}

#[test]
fn resolution_error_reasons() {
    assert_eq!(parse_resolution("639x480"), Err("minimal width is 640"));
    assert_eq!(parse_resolution("640x479"), Err("minimal height is 480"));
    assert_eq!(parse_resolution("640x480"), Ok(Resolution::new(640, 480)));
    assert_eq!(parse_resolution("800X600"), Ok(Resolution::new(800, 600)));
    assert_eq!(parse_resolution("800 x 600"), Err("invalid format"));
    assert_eq!(parse_resolution("800"), Err("invalid format"));
    assert_eq!(parse_resolution("800x600x800"), Err("invalid format"));
    assert_eq!(parse_resolution(""), Err("invalid format"));
    assert_eq!(parse_resolution("4294967296x600"), Err("invalid format"));
    assert_eq!(parse_resolution("+800x600"), Ok(Resolution::new(800, 600)));
}

#[test]
fn ratio_normalization() {
    let a = parse_ratio("8:5").unwrap();
    let b = parse_ratio("16:10").unwrap();
    assert!(matches!(a, Ratio::W16H10));
    assert!(matches!(b, Ratio::W16H10));
    assert_eq!(a, b);
}

#[test]
fn ratio_parse_known_pairs() {
    // 5:4 resolves to the first entry of the enumeration order.
    assert!(matches!(parse_ratio("5:4").unwrap(), Ratio::Original));
    assert!(matches!(parse_ratio("25:16").unwrap(), Ratio::W25H16));
    assert!(matches!(parse_ratio("15:9").unwrap(), Ratio::W15H9));
    assert!(matches!(parse_ratio("16:9").unwrap(), Ratio::W16H9));
    assert!(matches!(parse_ratio("21:9").unwrap(), Ratio::W21H9));
    assert!(matches!(
        RatioStr("16:10".to_string()).parse().unwrap(),
        Ratio::W16H10
    ));
}

#[test]
fn ratio_parse_unknown_pair_lists_all_ratios() {
    let err = parse_ratio("7:3").unwrap_err();
    assert_eq!(
        err,
        "\r\nIncorrect or unsupported aspect ratio. Given: `7:3`, but expected one of: \
         \r\n\t * 5:4\r\n\t * 25:16\r\n\t * 16:10\r\n\t * 15:9\r\n\t * 16:9\r\n\t * 21:9"
    );
    for expected in ["5:4", "25:16", "16:10", "15:9", "16:9", "21:9"] {
        assert!(err.contains(expected));
    }
}

#[test]
fn ratio_parse_failures() {
    assert!(parse_ratio("").is_err());
    assert!(parse_ratio("16").is_err());
    assert!(parse_ratio("16:").is_err());
    assert!(parse_ratio(":10").is_err());
    assert!(parse_ratio("16:10:1").is_err());
    assert!(parse_ratio("a:b").is_err());
    assert!(parse_ratio("0:0").is_err());
}
