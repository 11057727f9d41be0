use apollo_federation_types::config::SupergraphConfig;
use rover_compose::compose::Compose;
use rover_compose::exec::{ComposeError, CompositionOutput, RoverOutput};
use rover_compose::options::{
    FileDescriptorType, LicenseAccepter, PluginOpts, ProfileOpt, SupergraphComposeOpts,
    SupergraphConfigSource,
};
use rover_compose::path::check_portable;
use rover_compose::resolving::{
    supergraph_root, Authenticating, OutputTarget, ResolvedSupergraph, Resolving, SavingConfig,
};
use rover_compose::version::{FederationVersion, Version};

fn exact(major: u64, minor: u64, patch: u64) -> FederationVersion {
    let version = Version { major, minor, patch, pre: String::new(), build: String::new() };
    if major == 2 {
        FederationVersion::ExactFedTwo(version)
    } else {
        FederationVersion::ExactFedOne(version)
    }
}

fn start(
    source: Option<FileDescriptorType>,
    given: Option<FederationVersion>,
    output_file: Option<&str>,
) -> Authenticating {
    let compose = Compose {
        opts: SupergraphComposeOpts {
            plugin_opts: PluginOpts {
                profile: ProfileOpt { profile_name: "p".to_string() },
                elv2_license_accepter: LicenseAccepter { elv2_license_accepted: None },
                skip_update: true,
            },
            supergraph_config_source: SupergraphConfigSource {
                supergraph_yaml: source,
                graph_ref: None,
            },
            federation_version: given,
        },
    };
    compose.run_resolving(Some("/opt".to_string()), output_file.map(|file| file.to_string()))
}

fn resolving(given: Option<FederationVersion>, output_file: Option<&str>) -> Resolving {
    match start(None, given, output_file).authenticated(Ok::<(), String>(()), "") {
        Ok(resolving) => resolving,
        Err(e) => panic!("{:?}", e),
    }
}

fn saving(given: Option<FederationVersion>, output_file: Option<&str>) -> SavingConfig {
    let yaml = "federation_version: =2.8.5\nsubgraphs:\n  films:\n    routing_url: u\n    schema:\n      sdl: x\n";
    let config = SupergraphConfig::new_from_yaml(yaml).unwrap();
    let resolved = ResolvedSupergraph { config, federation_version: exact(2, 8, 5) };
    match resolving(given, output_file).resolved(Ok::<_, String>(resolved)) {
        Ok(saving) => saving,
        Err(e) => panic!("{:?}", e),
    }
}

fn root(file: &str, current_dir: &str) -> Result<Option<String>, ComposeError<String>> {
    supergraph_root(&Some(FileDescriptorType::File(file.to_string())), current_dir)
}

#[test]
fn root_is_the_directory_of_the_file() {
    let cases = [
        ("supergraph.yaml", "/home/me", "/home/me"),
        ("supergraph.yaml", "/home/me/", "/home/me"),
        ("./supergraph.yaml", "/home/me", "/home/me"),
        ("graphs/supergraph.yaml", "/home/me", "/home/me/graphs"),
        ("../supergraph.yaml", "/home/me", "/home/me/.."),
        ("/etc/supergraph.yaml", "/home/me", "/etc"),
        ("/supergraph.yaml", "/home/me", "/"),
        ("supergraph.yaml", "/", "/"),
        ("supergraph.yaml", "", ""),
        ("supergraph.yaml", "/a:b", "/a:b"),
        ("./supergraph.yaml", "/", "/"),
        ("././/supergraph.yaml", "/home/me", "/home/me"),
        ("./graphs/supergraph.yaml", "/home/me", "/home/me/./graphs"),
        ("graphs/./supergraph.yaml", "/home/me", "/home/me/graphs"),
        ("graphs//supergraph.yaml", "/home/me", "/home/me/graphs"),
        ("graphs/supergraph.yaml/.", "/home/me", "/home/me/graphs"),
        ("./supergraph.yaml", "", "."),
        ("", "/home/me", "/home"),
        ("//server/share/graphs/supergraph.yaml", "/home/me", "//server/share/graphs"),
        ("//./device/supergraph.yaml", "/home/me", "//./device"),
        ("/./supergraph.yaml", "/home/me", "/"),
    ];
    for (file, current_dir, expected) in cases {
        assert_eq!(root(file, current_dir).unwrap(), Some(expected.to_string()));
    }
}

#[test]
fn root_may_be_missing() {
    assert!(matches!(root("/", "/home/me"), Err(ComposeError::NoParent)));
    assert!(matches!(root("", ""), Err(ComposeError::NoParent)));
    assert_eq!(
        supergraph_root::<String>(&Some(FileDescriptorType::Stdin), "/home/me").unwrap(),
        None
    );
    assert_eq!(supergraph_root::<String>(&None, "/home/me").unwrap(), None);
}

#[test]
fn portable_paths_are_told() {
    for path in ["", "/", "a", "/a/b", "./a", "a//b", "é"] {
        assert!(check_portable(path));
    }
    for path in ["//a/b", "a\\b", "C:", "a/b:c"] {
        assert!(!check_portable(path));
    }
}

#[test]
fn client_is_needed_first() {
    let source = || Some(FileDescriptorType::File("supergraph.yaml".to_string()));
    let next = start(source(), None, None).authenticated(Err("no key".to_string()), "/home/me");
    assert!(matches!(next, Err(ComposeError::Outside(_))));
    match start(source(), None, None).authenticated(Ok::<(), String>(()), "/home/me") {
        Ok(resolving) => {
            assert_eq!(resolving.supergraph_root, Some("/home/me".to_string()));
            assert_eq!(resolving.job.opts.plugin_opts.profile.profile_name, "p");
            assert_eq!(resolving.job.override_install_path, Some("/opt".to_string()));
        }
        Err(e) => panic!("{:?}", e),
    }
}

#[test]
fn resolved_configuration_is_written_as_it_is() {
    let saving = saving(None, None);
    assert_eq!(saving.config_version, exact(2, 8, 5));
    assert_eq!(
        SupergraphConfig::new_from_yaml(&saving.yaml).unwrap(),
        SupergraphConfig::new_from_yaml(
            "federation_version: =2.8.5\nsubgraphs:\n  films:\n    routing_url: u\n    schema:\n      sdl: x\n"
        )
        .unwrap()
    );
    assert!(matches!(
        resolving(None, None).resolved(Err("no".to_string())),
        Err(ComposeError::Outside(_))
    ));
}

#[test]
fn schemas_from_elsewhere_are_written_as_they_are() {
    let yaml = "federation_version: 2\nsubgraphs:\n  a:\n    schema:\n      file: ./a.graphql\n  b:\n    routing_url: u\n    schema:\n      subgraph_url: https://b.example.com/\n      introspection_headers:\n        k: v\n  c:\n    schema:\n      graphref: g@v\n      subgraph: c\n";
    let config = SupergraphConfig::new_from_yaml(yaml).unwrap();
    let resolved =
        ResolvedSupergraph { config: config.clone(), federation_version: exact(2, 8, 5) };
    match resolving(None, None).resolved(Ok::<_, String>(resolved)) {
        Ok(saving) => assert_eq!(saving.yaml, serde_yaml::to_string(&config).unwrap()),
        Err(e) => panic!("{:?}", e),
    }
}

#[test]
fn given_version_comes_before_that_of_the_configuration() {
    let installing = match saving(Some(exact(2, 9, 1)), Some("out"))
        .saved(Ok::<String, String>("/tmp/supergraph.yaml".to_string()))
    {
        Ok(installing) => installing,
        Err(e) => panic!("{:?}", e),
    };
    assert_eq!(installing.federation_version, exact(2, 9, 1));
    assert_eq!(installing.output_target, OutputTarget::File("out".to_string()));
    assert_eq!(installing.warning, None);
    assert_eq!(installing.override_install_path, Some("/opt".to_string()));
    assert_eq!(
        installing.elv2_license_accepter,
        LicenseAccepter { elv2_license_accepted: None }
    );
    assert!(installing.skip_update);
    assert_eq!(installing.config_path, "/tmp/supergraph.yaml");
}

#[test]
fn version_of_the_configuration_is_the_default() {
    let installing = match saving(None, Some("out"))
        .saved(Ok::<String, String>("/tmp/supergraph.yaml".to_string()))
    {
        Ok(installing) => installing,
        Err(e) => panic!("{:?}", e),
    };
    assert_eq!(installing.federation_version, exact(2, 8, 5));
    assert_eq!(installing.output_target, OutputTarget::Stdout);
    assert_eq!(
        installing.warning.unwrap(),
        "ignoring `--output` because it is not supported in this version of the dependent binary, `supergraph`: =2.8.5. Upgrade to Federation 2.9.0 or greater to install a version of the binary that supports it."
    );
}

#[test]
fn version_must_be_exact() {
    let next = saving(Some(FederationVersion::LatestFedTwo), None)
        .saved(Ok::<String, String>("p".to_string()));
    assert!(matches!(next, Err(ComposeError::NoExactVersion)));
    let next = saving(Some(FederationVersion::LatestFedTwo), None).saved(Err("e".to_string()));
    assert!(matches!(next, Err(ComposeError::Outside(_))));
}

#[test]
fn binary_is_run_when_it_is_installed() {
    let installing = || match saving(None, None).saved(Ok::<String, String>("p".to_string())) {
        Ok(installing) => installing,
        Err(e) => panic!("{:?}", e),
    };
    assert!(matches!(
        installing().installed(Err("e".to_string())),
        Err(ComposeError::Outside(_))
    ));
    let running = || match installing().installed(Ok::<(), String>(())) {
        Ok(running) => running,
        Err(e) => panic!("{:?}", e),
    };
    assert_eq!(running().output_target, OutputTarget::Stdout);
    assert_eq!(running().config_path, "p");
    let output = CompositionOutput {
        hints: Vec::new(),
        supergraph_sdl: "s".to_string(),
        federation_version: None,
    };
    let RoverOutput::CompositionResult(result) =
        running().composed(Ok::<_, String>(output)).unwrap();
    assert_eq!(result.supergraph_sdl, "s");
    assert!(matches!(
        running().composed(Err("e".to_string())),
        Err(ComposeError::Outside(_))
    ));
}
