use maple_cli::error::ReleaseError;
use maple_cli::version::{extract_local_version_number, extract_remote_version_number};

#[test]
fn test_extract_version_number() {
    let tag = "v0.13-4-g58738c0";
    assert_eq!(Ok(13u32), extract_local_version_number(tag));
    let tag = "v0.13";
    assert_eq!(Ok(13u32), extract_local_version_number(tag));
}

#[test]
fn remote_version_is_the_minor_number() {
    assert_eq!(Ok(13u32), extract_remote_version_number("v0.13"));
    assert_eq!(Ok(0u32), extract_remote_version_number("v2.0"));
    assert_eq!(Ok(4294967295u32), extract_remote_version_number("v1.4294967295"));
}

#[test]
fn remote_version_drops_leading_zeros() {
    assert_eq!(Ok(7u32), extract_remote_version_number("v0.07"));
    assert_eq!(Ok(7u32), extract_remote_version_number("v0.0007"));
}

#[test]
fn remote_version_ignores_later_segments() {
    assert_eq!(Ok(13u32), extract_remote_version_number("v0.13.2"));
}

#[test]
fn remote_version_without_v_prefix() {
    assert_eq!(Ok(13u32), extract_remote_version_number("0.13"));
}

#[test]
fn local_version_matches_remote_version() {
    let local = extract_local_version_number("v1.22-10-gdeadbee");
    assert_eq!(local, extract_remote_version_number("v1.22"));
    assert_eq!(local, Ok(22u32));
    assert_eq!(Ok(5u32), extract_local_version_number("v0.05-0-g1"));
}

#[test]
fn tag_without_dot_is_malformed() {
    assert_eq!(Err(ReleaseError::MalformedTag), extract_remote_version_number("v013"));
    assert_eq!(Err(ReleaseError::MalformedTag), extract_remote_version_number(""));
    assert_eq!(Err(ReleaseError::MalformedTag), extract_local_version_number("v013-4-gabc"));
}

#[test]
fn non_numeric_minor_is_malformed() {
    assert_eq!(Err(ReleaseError::MalformedTag), extract_remote_version_number("v0.1x"));
    assert_eq!(Err(ReleaseError::MalformedTag), extract_remote_version_number("v0."));
    assert_eq!(Err(ReleaseError::MalformedTag), extract_remote_version_number("v0..13"));
    assert_eq!(Err(ReleaseError::MalformedTag), extract_remote_version_number("v0.-1"));
    assert_eq!(Err(ReleaseError::MalformedTag), extract_remote_version_number("v0.+"));
    assert_eq!(Err(ReleaseError::MalformedTag), extract_remote_version_number("v0.++1"));
    assert_eq!(Err(ReleaseError::MalformedTag), extract_remote_version_number("v0.1+"));
    assert_eq!(Err(ReleaseError::MalformedTag), extract_local_version_number("v0.1x-4-gabc"));
}

#[test]
fn minor_too_large_is_malformed() {
    assert_eq!(Err(ReleaseError::MalformedTag), extract_remote_version_number("v1.4294967296"));
    assert_eq!(Err(ReleaseError::MalformedTag), extract_remote_version_number("v1.99999999999"));
}

#[test]
fn plus_sign_before_minor_is_accepted() {
    assert_eq!(Ok(1u32), extract_remote_version_number("v0.+1"));
    assert_eq!(Ok(13u32), extract_remote_version_number("v0.+013"));
    assert_eq!(Ok(13u32), extract_local_version_number("v0.+13-4-gabc"));
}
