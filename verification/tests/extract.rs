use rover_compose::compose::Compose;
use rover_compose::extract::{
    federation_version_in, federation_version_of, format_version, ExtractError,
};
use rover_compose::version::{FederationVersion, Version};

fn version(major: u64, minor: u64, patch: u64, pre: &str, build: &str) -> Version {
    Version { major, minor, patch, pre: pre.to_string(), build: build.to_string() }
}

#[test]
fn it_can_extract_a_version_correctly() {
    let cases = [
        ("a/b/c/d/supergraph-v2.8.5", "v2.8.5"),
        ("a/b/supergraph-v2.9.1.exe", "v2.9.1"),
        ("a/b/supergraph-v1.2.3-SNAPSHOT.123+asdf", "v1.2.3-SNAPSHOT.123+asdf"),
        ("a/b/supergraph-v1.2.3-SNAPSHOT.123+asdf.exe", "v1.2.3-SNAPSHOT.123+asdf"),
    ];
    for (file_path, expected_value) in cases {
        let result = Compose::extract_federation_version(file_path).unwrap();
        assert_eq!(format_version(result.to_string()), expected_value);
    }
}

#[test]
fn major_version_decides_the_line() {
    assert_eq!(
        Compose::extract_federation_version("/bin/supergraph-v0.37.1").unwrap(),
        FederationVersion::ExactFedOne(version(0, 37, 1, "", ""))
    );
    assert_eq!(
        Compose::extract_federation_version("/bin/supergraph-v1.0.0").unwrap(),
        FederationVersion::ExactFedOne(version(1, 0, 0, "", ""))
    );
    assert_eq!(
        Compose::extract_federation_version("/bin/supergraph-v2.0.0-rc.1").unwrap(),
        FederationVersion::ExactFedTwo(version(2, 0, 0, "rc.1", ""))
    );
    assert!(matches!(
        Compose::extract_federation_version("/bin/supergraph-v3.0.0"),
        Err(ExtractError::UnsupportedFederation)
    ));
    assert!(federation_version_of(version(2, 1, 0, "", "")).is_ok());
    assert!(federation_version_of(version(4, 1, 0, "", "")).is_err());
}

#[test]
fn prefix_and_extension_are_optional() {
    for name in ["2.8.5", "2.8.5.exe", "supergraph-v2.8.5", "supergraph-v2.8.5.exe"] {
        assert_eq!(
            federation_version_in(name).unwrap(),
            FederationVersion::ExactFedTwo(version(2, 8, 5, "", ""))
        );
    }
}

#[test]
fn extension_is_cut_off_once() {
    assert_eq!(
        federation_version_in("supergraph-v1.2.3-a.exe.exe").unwrap(),
        FederationVersion::ExactFedOne(version(1, 2, 3, "a.exe", ""))
    );
    assert_eq!(
        federation_version_in("supergraph-v1.2.3-a.exe").unwrap(),
        FederationVersion::ExactFedOne(version(1, 2, 3, "a", ""))
    );
}

#[test]
fn names_without_a_version_are_refused() {
    let names = [
        "supergraph",
        "supergraph-v",
        "supergraph-v2",
        "supergraph-v2.8",
        "supergraph-v2.08.5",
        "supergraph-v2.8.5-",
        "supergraph-v2.8.5+",
        "supergraph-v2.8.5-01",
        "supergraph-v2.8.5-a..b",
        "supergraph-v2.8.5-a_b",
        "supergraph-v2.8.5 ",
        "supergraph-v18446744073709551616.0.0",
        "supergraph-vsupergraph-v2.8.5",
    ];
    for name in names {
        assert!(matches!(federation_version_in(name), Err(ExtractError::Version(_))));
    }
    match federation_version_in("supergraph-v2.q.r") {
        Err(ExtractError::Version(e)) => assert_eq!(
            e.to_string(),
            "unexpected character 'q' while parsing minor version number"
        ),
        _ => panic!("a version was read"),
    }
}

#[test]
fn odd_versions_are_read() {
    assert_eq!(
        federation_version_in("supergraph-v18446744073709551615.0.0").unwrap_err().message(),
        Some("unsupported Federation version".to_string())
    );
    assert_eq!(
        federation_version_in("supergraph-v0.0.0-0a.0.-+007.x").unwrap(),
        FederationVersion::ExactFedOne(version(0, 0, 0, "0a.0.-", "007.x"))
    );
}

#[test]
fn file_name_is_the_last_part_of_the_path() {
    let expected = FederationVersion::ExactFedTwo(version(2, 8, 5, "", ""));
    for path in [
        "supergraph-v2.8.5",
        "/supergraph-v2.8.5",
        "./supergraph-v2.8.5",
        "a//supergraph-v2.8.5",
        "a/supergraph-v2.8.5/",
        "a/supergraph-v2.8.5/.",
        "a/supergraph-v2.8.5/.//",
        "a.b/../supergraph-v2.8.5",
    ] {
        assert_eq!(Compose::extract_federation_version(path).unwrap(), expected);
    }
}

#[test]
fn path_may_have_no_file_name() {
    for path in ["", "/", ".", "./.", "..", "a/..", "supergraph-v2.8.5/..", "supergraph-v2.8.5/../"] {
        assert!(matches!(
            Compose::extract_federation_version(path),
            Err(ExtractError::NoFileName)
        ));
    }
}

#[test]
fn format_replaces_the_first_character() {
    assert_eq!(format_version("=2.8.5".to_string()), "v2.8.5");
    assert_eq!(format_version("2".to_string()), "v");
    assert_eq!(format_version("=é".to_string()), "vé");
}

#[test]
fn errors_of_extraction_have_messages() {
    assert_eq!(
        ExtractError::UnsupportedFederation.message(),
        Some("unsupported Federation version".to_string())
    );
    assert_eq!(ExtractError::NoFileName.message(), None);
}

#[test]
fn only_the_version_in_the_name_counts() {
    let expected = FederationVersion::ExactFedTwo(version(2, 8, 5, "rc.1", "b"));
    for directory in ["", "/", "a", "a/b", "/home/me", "C:", "a:b\\c", "//server/share/bin", "//"] {
        for name in [
            "2.8.5-rc.1+b",
            "2.8.5-rc.1+b.exe",
            "supergraph-v2.8.5-rc.1+b",
            "supergraph-v2.8.5-rc.1+b.exe",
        ] {
            let path = if directory.is_empty() || directory.ends_with('/') {
                format!("{}{}", directory, name)
            } else {
                format!("{}/{}", directory, name)
            };
            assert_eq!(Compose::extract_federation_version(&path).unwrap(), expected);
        }
    }
}

#[test]
fn paths_on_a_share_have_a_file_name() {
    assert_eq!(
        Compose::extract_federation_version("//server/share/bin/supergraph-v2.8.5").unwrap(),
        FederationVersion::ExactFedTwo(version(2, 8, 5, "", ""))
    );
    assert!(matches!(
        Compose::extract_federation_version("//server/share/.."),
        Err(ExtractError::NoFileName)
    ));
}

#[test]
fn verbatim_paths_have_a_file_name() {
    assert_eq!(
        Compose::extract_federation_version("\\\\?\\bin/supergraph-v2.8.5").unwrap(),
        FederationVersion::ExactFedTwo(version(2, 8, 5, "", ""))
    );
}
