//! Scenario tests against a real filesystem: each test works on the user
//! attributes of its own scratch file or directory.

use xattr_nif::errors::ErrorKind;
use xattr_nif::ops::{
    get_attribute, has_attribute, list_attributes, remove_attribute, set_attribute,
};

const MISSING_PATH: &str = "/xattr_nif_no_such_dir/no_such_entry";

fn scratch_file() -> tempfile::NamedTempFile {
    tempfile::NamedTempFile::new().unwrap()
}

fn path_of(file: &tempfile::NamedTempFile) -> &str {
    file.path().to_str().unwrap()
}

#[test]
fn round_trip_preserves_binary_value() {
    let file = scratch_file();
    let target = path_of(&file);
    let name = "user.xnif_round_trip";
    let value = [0u8, 255, 1, b'b', b'i', b'n', 0, 128];
    set_attribute(target, name, &value).unwrap();
    assert_eq!(get_attribute(target, name).unwrap(), value.to_vec());
}

#[test]
fn absence_after_removal() {
    let file = scratch_file();
    let target = path_of(&file);
    let name = "user.xnif_absence";
    set_attribute(target, name, b"present").unwrap();
    remove_attribute(target, name).unwrap();
    assert_eq!(get_attribute(target, name), Err(ErrorKind::AttributeNotFound));
}

#[test]
fn existence_predicate_matches_get() {
    let file = scratch_file();
    let target = path_of(&file);
    let name = "user.xnif_existence";
    set_attribute(target, name, b"v").unwrap();
    assert_eq!(has_attribute(target, name), Ok(true));
    assert!(get_attribute(target, name).is_ok());
    remove_attribute(target, name).unwrap();
    assert_eq!(has_attribute(target, name), Ok(false));
    assert_eq!(get_attribute(target, name), Err(ErrorKind::AttributeNotFound));
}

fn user_names(listed: Vec<Vec<u8>>) -> Vec<Vec<u8>> {
    let prefix = b"user.";
    let mut names: Vec<Vec<u8>> = listed
        .into_iter()
        .filter(|n| n.len() >= prefix.len() && n[..prefix.len()] == prefix[..])
        .collect();
    names.sort();
    names
}

#[test]
fn list_holds_exactly_the_names_set() {
    let file = scratch_file();
    let target = path_of(&file);
    assert_eq!(user_names(list_attributes(target).unwrap()), Vec::<Vec<u8>>::new());
    let names = ["user.xnif_list.a", "user.xnif_list.b", "user.xnif_list.c"];
    for name in names {
        set_attribute(target, name, b"x").unwrap();
    }
    let expected: Vec<Vec<u8>> = names.iter().map(|n| n.as_bytes().to_vec()).collect();
    assert_eq!(user_names(list_attributes(target).unwrap()), expected);
}

#[test]
fn every_operation_on_missing_path_is_not_found() {
    assert_eq!(list_attributes(MISSING_PATH), Err(ErrorKind::NotFound));
    assert_eq!(has_attribute(MISSING_PATH, "user.x"), Err(ErrorKind::NotFound));
    assert_eq!(get_attribute(MISSING_PATH, "user.x"), Err(ErrorKind::NotFound));
    assert_eq!(set_attribute(MISSING_PATH, "user.x", b"v"), Err(ErrorKind::NotFound));
    assert_eq!(remove_attribute(MISSING_PATH, "user.x"), Err(ErrorKind::NotFound));
}

#[test]
fn never_set_name_is_attribute_not_found() {
    let file = scratch_file();
    let target = path_of(&file);
    let name = "user.xnif_never_set";
    assert_eq!(get_attribute(target, name), Err(ErrorKind::AttributeNotFound));
    assert_eq!(remove_attribute(target, name), Err(ErrorKind::AttributeNotFound));
}

#[test]
fn removing_an_absent_attribute_fails_both_times() {
    let file = scratch_file();
    let target = path_of(&file);
    let name = "user.xnif_idempotent_removal";
    set_attribute(target, name, b"once").unwrap();
    remove_attribute(target, name).unwrap();
    assert_eq!(remove_attribute(target, name), Err(ErrorKind::AttributeNotFound));
    assert_eq!(remove_attribute(target, name), Err(ErrorKind::AttributeNotFound));
}

#[test]
fn overwrite_replaces_the_whole_value() {
    let file = scratch_file();
    let target = path_of(&file);
    let name = "user.xnif_overwrite";
    set_attribute(target, name, b"first value").unwrap();
    set_attribute(target, name, b"2nd").unwrap();
    assert_eq!(get_attribute(target, name).unwrap(), b"2nd".to_vec());
}

#[test]
fn zero_length_value_is_present_not_missing() {
    let file = scratch_file();
    let target = path_of(&file);
    let name = "user.xnif_zero_length";
    set_attribute(target, name, b"").unwrap();
    assert_eq!(get_attribute(target, name), Ok(Vec::new()));
    assert_eq!(has_attribute(target, name), Ok(true));
}
