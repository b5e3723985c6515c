//! Tests for the coordinate and length value types.

use schematic_editor::general::{Coordinates, DisplayMode, Length, StorageFormat, StoragePath,
    StorageLoadError, StoragePathError, StorageSaveError, UNITS_PER_INCH, UNITS_PER_MM};

#[test]
fn add_keeps_left_unit_tag() {
    let a = Coordinates::Inches(1000, 2000);
    let b = Coordinates::Millimeters(10, 20);
    let r = a.add(b);
    assert_eq!(r, Coordinates::Inches(1010, 2020));
    let r2 = b.add(a);
    assert_eq!(r2, Coordinates::Millimeters(1010, 2020));
}

#[test]
fn sub_keeps_left_unit_tag() {
    let a = Coordinates::Millimeters(1000, 2000);
    let b = Coordinates::Inches(10, 20);
    assert_eq!(a.sub(b), Coordinates::Millimeters(990, 1980));
}

#[test]
fn add_assign_and_sub_assign_round_trip() {
    let mut a = Coordinates::Inches(123, -456);
    let d = Coordinates::Millimeters(789, 41);
    a.add_assign(d);
    a.sub_assign(d);
    assert_eq!(a, Coordinates::Inches(123, -456));
}

#[test]
fn less_than_epsilon_is_exact_zero() {
    assert!(Coordinates::Inches(0, 0).less_than_epsilon());
    assert!(Coordinates::Millimeters(0, 0).less_than_epsilon());
    assert!(!Coordinates::Inches(1, 0).less_than_epsilon());
    assert!(!Coordinates::Inches(0, -1).less_than_epsilon());
}

#[test]
fn unit_constants_agree_on_the_grid() {
    // 25.4 millimetres are one inch on the shared grid.
    assert_eq!(UNITS_PER_INCH, 254 * UNITS_PER_MM / 10);
}

#[test]
fn get_mm_is_the_raw_grid_pair() {
    let c = Coordinates::Inches(25400, -1000);
    assert_eq!(c.get_mm(), (25400, -1000));
}

#[test]
fn get_inches_scales_exactly_for_whole_inches() {
    // One inch is 25400 grid units and 1_000_000 micro-inches.
    let c = Coordinates::Millimeters(25400, -50800);
    assert_eq!(c.get_inches(), (1_000_000, -2_000_000));
}

#[test]
fn get_inches_rounds_toward_zero() {
    // One grid unit is 5000/127 = 39.37... micro-inches.
    let c = Coordinates::Inches(1, -1);
    assert_eq!(c.get_inches(), (39, -39));
}

#[test]
fn get_units_selects_the_display_mode() {
    let c = Coordinates::Inches(25400, 0);
    assert_eq!(c.get_units(DisplayMode::Millimeters), (25400, 0));
    assert_eq!(c.get_units(DisplayMode::Inches), (1_000_000, 0));
}

#[test]
fn length_conversions() {
    let l = Length::Inches(25400);
    assert_eq!(l.get_mm(), 25400);
    assert_eq!(l.get_inches(), 1_000_000);
    let m = Length::Millimeters(1000);
    assert_eq!(m.get_mm(), 1000);
    assert_eq!(m.get_inches(), 39370);
}

#[test]
fn storage_path_display_and_open_path() {
    let p = StoragePath::LocalFilesystem("/tmp/example.uol".to_string());
    assert_eq!(p.display(), "Local Filesystem");
    let open = p.open_path();
    assert!(open.is_some());
    assert_eq!(open.unwrap(), std::path::PathBuf::from("/tmp/example.uol"));
}

#[test]
fn storage_defaults() {
    assert_eq!(StorageFormat::default(), StorageFormat::Toml);
    assert_eq!(
        StoragePath::default(),
        StoragePath::LocalFilesystem(String::new())
    );
}

#[test]
fn storage_error_messages() {
    let e = StorageLoadError::DeserializeError("bad data".to_string());
    assert_eq!(e.message(), "bad data");
    let e2 = StorageSaveError::IoError("disk full".to_string());
    assert_eq!(e2.message(), "disk full");
    let e3 = StoragePathError::IoError("missing".to_string());
    assert_eq!(e3.message(), "missing");
    let e4 = StorageLoadError::StoragePathError(StoragePathError::IoError("gone".to_string()));
    assert_eq!(e4.message(), "gone");
}
