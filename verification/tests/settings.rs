use eracer_config::error_code::ErrorCode;
use eracer_config::resolution::Resolution;
use eracer_config::settings::{RegValue, Settings};

fn loaded() -> Settings {
    Settings::load_from(
        true,
        Some(RegValue::Str("C:\\Games\\ERacer".to_string())),
        Some(RegValue::U32(800)),
        Some(RegValue::U32(600)),
        None,
        None,
    )
    .unwrap()
}

#[test]
fn load_assembles_settings() {
    let st = loaded();
    assert_eq!(st.registry_path, "C:\\Games\\ERacer\\eracer.exe");
    assert_eq!(st.resolution, Resolution::new(800, 600));
    assert!(st.override_path.is_none());
    assert!(st.binary.is_none());
    assert_eq!(st.path(), "C:\\Games\\ERacer\\eracer.exe");
}

#[test]
fn load_error_shapes() {
    let e = Settings::load_from(false, None, None, None, None, None).unwrap_err();
    assert!(matches!(e, ErrorCode::RegistryEntryNotFound));

    let e = Settings::load_from(true, None, None, None, None, None).unwrap_err();
    assert!(matches!(e, ErrorCode::RegistryInstallDirNotFound));

    let e = Settings::load_from(true, Some(RegValue::U32(1)), None, None, None, None).unwrap_err();
    assert!(matches!(e, ErrorCode::RegistryInstallDirIncorrectType));

    let dir = || Some(RegValue::Str("D:\\x".to_string()));
    let e = Settings::load_from(true, dir(), None, None, None, None).unwrap_err();
    assert!(matches!(e, ErrorCode::RegistryResolutionWidthNotFound));

    let e = Settings::load_from(true, dir(), Some(RegValue::Other), None, None, None).unwrap_err();
    assert!(matches!(e, ErrorCode::RegistryResolutionWidthIncorrectType));

    let e = Settings::load_from(true, dir(), Some(RegValue::U32(800)), None, None, None)
        .unwrap_err();
    assert!(matches!(e, ErrorCode::RegistryResolutionHeightNotFound));

    let e = Settings::load_from(
        true,
        dir(),
        Some(RegValue::U32(800)),
        Some(RegValue::Str("no".to_string())),
        None,
        None,
    )
    .unwrap_err();
    assert!(matches!(e, ErrorCode::RegistryResolutionHeightIncorrectType));
}

#[test]
fn path_prefers_override() {
    let st = Settings::load_from(
        true,
        Some(RegValue::Str("C:\\A".to_string())),
        Some(RegValue::U32(640)),
        Some(RegValue::U32(480)),
        Some("D:\\other\\eracer.exe".to_string()),
        None,
    )
    .unwrap();
    assert_eq!(st.path(), "D:\\other\\eracer.exe");
}

#[test]
fn set_resolution_mirrors_what_the_store_took() {
    let mut st = loaded();
    let e = st
        .set_resolution(Resolution::new(1024, 768), false, false)
        .unwrap_err();
    assert!(matches!(e, ErrorCode::RegistryResolutionWidthChange));
    assert_eq!(st.resolution, Resolution::new(800, 600));

    let e = st
        .set_resolution(Resolution::new(1024, 768), true, false)
        .unwrap_err();
    assert!(matches!(e, ErrorCode::RegistryResolutionHeightChange));
    assert_eq!(st.resolution, Resolution::new(1024, 600));

    let mut st = loaded();
    st.set_resolution(Resolution::new(1024, 768), true, true)
        .unwrap();
    assert_eq!(st.resolution, Resolution::new(1024, 768));
}
