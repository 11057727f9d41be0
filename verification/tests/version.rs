use rover_compose::output::{gate_output, supports_output};
use rover_compose::text::{concat2, concat3, push_decimal, trim_prefix, trim_suffix};
use rover_compose::version::{FederationVersion, Version};

fn version(major: u64, minor: u64, patch: u64, pre: &str, build: &str) -> Version {
    Version { major, minor, patch, pre: pre.to_string(), build: build.to_string() }
}

#[test]
fn numbers_are_written_in_decimal() {
    for n in [0u64, 7, 9, 10, 99, 100, 1234567890, u64::MAX] {
        let mut out = "n=".to_string();
        push_decimal(&mut out, n);
        assert_eq!(out, format!("n={}", n));
    }
}

#[test]
fn prefixes_and_suffixes_are_trimmed_once() {
    assert_eq!(trim_prefix("aab", "a"), "ab");
    assert_eq!(trim_prefix("ab", "abc"), "ab");
    assert_eq!(trim_prefix("xab", "ab"), "xab");
    assert_eq!(trim_prefix("éa", "é"), "a");
    assert_eq!(trim_prefix("a", ""), "a");
    assert_eq!(trim_suffix("baa", "a"), "ba");
    assert_eq!(trim_suffix("bc", "abc"), "bc");
    assert_eq!(trim_suffix("abx", "ab"), "abx");
    assert_eq!(trim_suffix("aé", "é"), "a");
    assert_eq!(trim_suffix("a", ""), "a");
}

#[test]
fn texts_are_concatenated() {
    assert_eq!(concat2("ab", "c"), "abc");
    assert_eq!(concat3("a", "", "bc"), "abc");
}

#[test]
fn versions_are_written_in_semver_notation() {
    assert_eq!(version(2, 8, 5, "", "").to_string(), "2.8.5");
    assert_eq!(version(2, 8, 5, "rc.1", "").to_string(), "2.8.5-rc.1");
    assert_eq!(version(2, 8, 5, "", "x").to_string(), "2.8.5+x");
    assert_eq!(version(10, 0, 100, "a", "b").to_string(), "10.0.100-a+b");
}

#[test]
fn federation_versions_are_written_in_two_ways() {
    let exact_one = FederationVersion::ExactFedOne(version(0, 36, 0, "", ""));
    let exact_two = FederationVersion::ExactFedTwo(version(2, 9, 0, "", ""));
    assert_eq!(FederationVersion::LatestFedOne.to_string(), "0");
    assert_eq!(FederationVersion::LatestFedTwo.to_string(), "2");
    assert_eq!(exact_one.to_string(), "=0.36.0");
    assert_eq!(exact_two.to_string(), "=2.9.0");
    assert_eq!(FederationVersion::LatestFedOne.get_tarball_version(), "latest-0");
    assert_eq!(FederationVersion::LatestFedTwo.get_tarball_version(), "latest-2");
    assert_eq!(exact_one.get_tarball_version(), "v0.36.0");
    assert_eq!(exact_two.get_tarball_version(), "v2.9.0");
}

#[test]
fn federation_versions_know_their_line() {
    let exact_one = FederationVersion::ExactFedOne(version(1, 2, 3, "", ""));
    let exact_two = FederationVersion::ExactFedTwo(version(2, 9, 0, "", ""));
    assert!(!FederationVersion::LatestFedOne.is_fed_two());
    assert!(FederationVersion::LatestFedTwo.is_fed_two());
    assert!(!exact_one.is_fed_two());
    assert!(exact_two.is_fed_two());
    assert_eq!(FederationVersion::LatestFedOne.get_major_version(), 0);
    assert_eq!(exact_one.get_major_version(), 0);
    assert_eq!(FederationVersion::LatestFedTwo.get_major_version(), 2);
    assert_eq!(exact_two.get_major_version(), 2);
    assert_eq!(FederationVersion::LatestFedOne.get_exact(), None);
    assert_eq!(exact_two.get_exact(), Some(&version(2, 9, 0, "", "")));
    assert_eq!(exact_one.clone(), exact_one);
}

#[test]
fn files_are_written_from_2_9_0_on() {
    assert!(!supports_output(&version(0, 99, 0, "", "")));
    assert!(!supports_output(&version(1, 9, 0, "", "")));
    assert!(!supports_output(&version(2, 8, 99, "", "")));
    assert!(supports_output(&version(2, 9, 0, "rc.0", "")));
    assert!(supports_output(&version(2, 9, 0, "", "")));
    assert!(supports_output(&version(3, 0, 0, "", "")));
}

#[test]
fn unsupported_output_is_ignored_with_a_warning() {
    let exact = version(2, 8, 5, "", "");
    let federation = FederationVersion::ExactFedTwo(exact.clone());
    let (file, warning) = gate_output(&federation, &exact, Some("out.graphql".to_string()));
    assert_eq!(file, None);
    assert_eq!(
        warning.unwrap(),
        "ignoring `--output` because it is not supported in this version of the dependent binary, `supergraph`: =2.8.5. Upgrade to Federation 2.9.0 or greater to install a version of the binary that supports it."
    );
    assert_eq!(gate_output(&federation, &exact, None), (None, None));

    let exact = version(2, 9, 0, "", "");
    let federation = FederationVersion::ExactFedTwo(exact.clone());
    assert_eq!(
        gate_output(&federation, &exact, Some("out.graphql".to_string())),
        (Some("out.graphql".to_string()), None)
    );
}
