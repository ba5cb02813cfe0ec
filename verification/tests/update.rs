use cleanrs::update::{
    checksum_manifest_has_archive, compare_versions, installer_retry_delay,
    installer_script_has_checksum, normalize_version, release_target, release_update,
    upgrade_channel, UpgradeChannel,
};
use std::cmp::Ordering;

#[test]
fn normalizes_release_versions() {
    assert_eq!(normalize_version("v0.1.3").as_deref(), Some("0.1.3"));
    assert!(normalize_version("latest").is_none());
}

#[test]
fn compares_release_versions_without_semver_dependency() {
    assert_eq!(compare_versions("0.1.4", "0.1.3"), Ordering::Greater);
    assert_eq!(compare_versions("0.1.3", "0.1.3"), Ordering::Equal);
    assert_eq!(compare_versions("1.0", "0.99.9"), Ordering::Greater);
}

#[test]
fn installer_readiness_requires_a_non_empty_target_checksum() {
    let script = r#"
            0.1.5:aarch64-apple-darwin)
              EXPECTED_SHA256="abc123"
            0.1.5:x86_64-apple-darwin)
              EXPECTED_SHA256=""
        "#;

    assert!(installer_script_has_checksum(script, "0.1.5", "aarch64-apple-darwin"));
    assert!(!installer_script_has_checksum(script, "0.1.5", "x86_64-apple-darwin"));
    assert!(!installer_script_has_checksum(script, "0.1.6", "aarch64-apple-darwin"));
}

#[test]
fn checksum_manifest_requires_a_verified_archive_entry() {
    let manifest = "abc\n1234567890abcdef1234567890abcdef1234567890abcdef1234567890abcdef  cleanrs-v0.1.6-x86_64-pc-windows-msvc.zip\n";
    assert!(checksum_manifest_has_archive(manifest, "cleanrs-v0.1.6-x86_64-pc-windows-msvc.zip"));
    assert!(!checksum_manifest_has_archive(manifest, "cleanrs-v0.1.6-aarch64-pc-windows-msvc.zip"));
}

#[test]
fn comparison_is_antisymmetric_on_examples() {
    assert_eq!(compare_versions("0.1.3", "0.1.4"), Ordering::Less);
    assert_eq!(compare_versions("0.99.9", "1.0"), Ordering::Less);
    assert_eq!(compare_versions("1.0", "1.0.0"), Ordering::Equal);
}

#[test]
fn newer_releases_are_offered_and_older_ones_are_not() {
    let offer = release_update("0.1.3", "v0.1.4", "https://example.invalid/r").expect("valid tag");
    let info = offer.expect("a newer release is offered");
    assert_eq!(info.current_version, "0.1.3");
    assert_eq!(info.latest_version, "0.1.4");
    assert!(release_update("0.1.4", "v0.1.4", "u").expect("valid tag").is_none());
    assert!(release_update("0.1.4", "v0.1.3", "u").expect("valid tag").is_none());
    assert!(release_update("0.1.4", "latest", "u").is_err());
}

#[test]
fn installer_retries_back_off() {
    assert_eq!(installer_retry_delay(1), 1);
    assert_eq!(installer_retry_delay(2), 2);
    assert_eq!(installer_retry_delay(3), 4);
    assert_eq!(installer_retry_delay(9), 8);
}

#[test]
fn release_targets_follow_the_platform() {
    assert_eq!(release_target("macos", "aarch64"), Some("aarch64-apple-darwin"));
    assert_eq!(release_target("plan9", "mips"), None);
}

#[test]
fn upgrade_channel_follows_the_install_location() {
    assert!(matches!(upgrade_channel("/opt/homebrew/Cellar/cleanrs/0.1.7/bin/cleanrs"), UpgradeChannel::Homebrew));
    assert!(matches!(upgrade_channel("/Users/test/src/cleanrs/target/release/cleanrs"), UpgradeChannel::DevelopmentBuild));
    assert!(matches!(upgrade_channel("/Users/test/.local/bin/cleanrs"), UpgradeChannel::Installer));
}

#[test]
fn versions_compare_fields_as_numbers_and_pad_with_zero() {
    assert_eq!(compare_versions("1.0", "1"), Ordering::Equal);
    assert_eq!(compare_versions("1", "1.0.0"), Ordering::Equal);
    assert_eq!(compare_versions("0.10", "0.9"), Ordering::Greater);
    assert_eq!(compare_versions("0.9", "0.10"), Ordering::Less);
    assert_eq!(compare_versions("1.2.1", "1.2"), Ordering::Greater);
}
