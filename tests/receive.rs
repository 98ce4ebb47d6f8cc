use wormhole_bridge::receive::{
    first_collision, new_staging_dir_name, staging_dir_name, v1_needs_confirmation, v1_open_mode,
    V1Open,
};

#[test]
fn v1_new_file_is_created_exclusively() {
    assert_eq!(v1_open_mode(false, false, false), V1Open::CreateNew);
    assert_eq!(v1_open_mode(false, true, false), V1Open::CreateNew);
}

#[test]
fn v1_existing_file_is_not_silently_overwritten() {
    assert!(v1_needs_confirmation(true, false));
    assert_eq!(v1_open_mode(true, false, false), V1Open::Reject);
    assert_eq!(v1_open_mode(true, false, true), V1Open::Truncate);
    assert_eq!(v1_open_mode(true, true, false), V1Open::Truncate);
    assert!(!v1_needs_confirmation(true, true));
    assert!(!v1_needs_confirmation(false, false));
}

#[test]
fn staging_name_is_zero_padded() {
    assert_eq!(staging_dir_name(42), "wormhole-tmp-000042");
    assert_eq!(staging_dir_name(0), "wormhole-tmp-000000");
    assert_eq!(staging_dir_name(999999), "wormhole-tmp-999999");
    assert_eq!(staging_dir_name(105030), "wormhole-tmp-105030");
}

#[test]
fn fresh_staging_name_has_six_digits() {
    let n = new_staging_dir_name();
    assert!(n.starts_with("wormhole-tmp-"));
    let suffix = &n["wormhole-tmp-".len()..];
    assert_eq!(suffix.len(), 6);
    assert!(suffix.chars().all(|c| c.is_ascii_digit()));
}

#[test]
fn first_collision_finds_first_taken() {
    assert_eq!(first_collision(&vec![false, true, true]), Some(1));
    assert_eq!(first_collision(&vec![false, false]), None);
    assert_eq!(first_collision(&Vec::new()), None);
}
