use apollo_federation_types::config::{
    FederationVersion as ConfigVersion, SupergraphConfig,
};
use rover_compose::compose::{Compose, Install, InstallRequest, Plugin};
use rover_compose::exec::{
    ComposeError, ComposeReply, Composing, CompositionOutput, Installing, RoverOutput, Suggestion,
    WritingConfig,
};
use rover_compose::extract::ExtractError;
use rover_compose::options::{
    FileDescriptorType, GraphRef, LicenseAccepter, PluginOpts, ProfileOpt, SupergraphComposeOpts,
    SupergraphConfigSource,
};
use rover_compose::outside::{BuildOutput, BuildReading, ConfigFault};
use rover_compose::version::{FederationVersion, Version};

fn version(major: u64, minor: u64, patch: u64) -> Version {
    Version { major, minor, patch, pre: String::new(), build: String::new() }
}

fn plugin_opts() -> PluginOpts {
    PluginOpts {
        profile: ProfileOpt { profile_name: "default".to_string() },
        elv2_license_accepter: LicenseAccepter { elv2_license_accepted: Some(true) },
        skip_update: true,
    }
}

fn compose() -> Compose {
    Compose {
        opts: SupergraphComposeOpts {
            plugin_opts: plugin_opts(),
            supergraph_config_source: SupergraphConfigSource {
                supergraph_yaml: Some(FileDescriptorType::Stdin),
                graph_ref: Some(GraphRef { text: "graph@current".to_string() }),
            },
            federation_version: Some(FederationVersion::LatestFedOne),
        },
    }
}

fn config(version: &str) -> SupergraphConfig {
    let yaml = format!(
        "{}subgraphs:\n  films:\n    routing_url: https://films.example.com\n    schema:\n      sdl: 'type Query {{ a: Int }}'\n  people:\n    routing_url: https://people.example.com\n    schema:\n      sdl: 'type Query {{ b: Int }}'\n",
        version
    );
    SupergraphConfig::new_from_yaml(&yaml).unwrap()
}

fn installing(version: FederationVersion, output_file: Option<&str>) -> Installing {
    Installing {
        request: compose().maybe_install_supergraph(None, version.clone()),
        federation_version: version,
        output_file: output_file.map(|file| file.to_string()),
    }
}

fn writing(exe: &str, output_file: Option<&str>) -> WritingConfig {
    WritingConfig {
        exe: exe.to_string(),
        yaml: "yaml".to_string(),
        num_subgraphs: 2,
        output_file: output_file.map(|file| file.to_string()),
    }
}

fn composing(exe: &str) -> Composing {
    match writing(exe, None).written(Ok::<String, String>("/tmp/config.yml".to_string())) {
        Ok(composing) => composing,
        Err(e) => panic!("{:?}", e),
    }
}

#[test]
fn new_command_composes_what_is_in_memory() {
    let command = Compose::new(plugin_opts());
    assert_eq!(command.opts.plugin_opts(), &plugin_opts());
    assert_eq!(command.opts.federation_version(), &Some(FederationVersion::LatestFedTwo));
    let source = command.opts.supergraph_config_source();
    assert_eq!(source.supergraph_yaml(), &Some(FileDescriptorType::File("RAM".to_string())));
    assert_eq!(source.graph_ref(), &None);
}

#[test]
fn license_is_required_for_federation_two_only() {
    let fed_two = FederationVersion::ExactFedTwo(version(2, 9, 0));
    assert_eq!(
        compose().maybe_install_supergraph(Some("/opt".to_string()), fed_two.clone()),
        InstallRequest {
            required_license: Some(LicenseAccepter { elv2_license_accepted: Some(true) }),
            install: Install {
                force: false,
                plugin: Some(Plugin::Supergraph(fed_two)),
                elv2_license_accepter: LicenseAccepter { elv2_license_accepted: Some(true) },
            },
            override_install_path: Some("/opt".to_string()),
            skip_update: true,
        }
    );
    let request = compose().maybe_install_supergraph(None, FederationVersion::LatestFedOne);
    assert_eq!(request.required_license, None);
    assert_eq!(request.override_install_path, None);
}

#[test]
fn exec_installs_the_version_of_the_configuration() {
    let config = config("federation_version: =2.3.4\n");
    let installing = compose()
        .exec_if_versioned(None, &config, Some("out".to_string()))
        .unwrap();
    let expected = FederationVersion::ExactFedTwo(version(2, 3, 4));
    assert_eq!(installing.federation_version, expected);
    assert_eq!(installing.request.install.plugin, Some(Plugin::Supergraph(expected)));
    assert_eq!(installing.output_file, Some("out".to_string()));
}

#[test]
fn exec_reads_every_kind_of_version() {
    let cases = [
        ("federation_version: 1\n", FederationVersion::LatestFedOne),
        ("federation_version: 2\n", FederationVersion::LatestFedTwo),
        ("federation_version: =0.36.0\n", FederationVersion::ExactFedOne(version(0, 36, 0))),
        (
            "federation_version: =2.1.0-alpha.1+b.2\n",
            FederationVersion::ExactFedTwo(Version {
                pre: "alpha.1".to_string(),
                build: "b.2".to_string(),
                ..version(2, 1, 0)
            }),
        ),
    ];
    for (yaml, expected) in cases {
        let installing = compose().exec(None, &config(yaml), None);
        assert_eq!(installing.federation_version, expected);
    }
}

#[test]
fn exec_needs_a_version() {
    assert!(compose().exec_if_versioned(None, &config(""), None).is_none());
}

#[test]
fn configuration_asks_for_the_major_version_only() {
    let cases = [
        (FederationVersion::ExactFedTwo(version(2, 3, 4)), ConfigVersion::LatestFedTwo, "2"),
        (FederationVersion::LatestFedTwo, ConfigVersion::LatestFedTwo, "2"),
        (FederationVersion::ExactFedOne(version(0, 36, 0)), ConfigVersion::LatestFedOne, "0"),
        (FederationVersion::ExactFedOne(version(1, 2, 3)), ConfigVersion::LatestFedOne, "0"),
    ];
    for (asked, told, text) in cases {
        let mut config = config("federation_version: =2.3.4\n");
        let definitions = config.get_subgraph_definitions().unwrap();
        let next = installing(asked, Some("out"))
            .installed(Ok::<String, String>("/bin/supergraph-v2.3.4".to_string()), &mut config);
        let writing = match next {
            Ok(writing) => writing,
            Err(e) => panic!("{:?}", e),
        };
        assert_eq!(config.get_federation_version(), Some(told));
        assert_eq!(config.get_subgraph_definitions().unwrap(), definitions);
        assert_eq!(writing.num_subgraphs, 2);
        assert_eq!(writing.exe, "/bin/supergraph-v2.3.4");
        assert_eq!(writing.output_file, Some("out".to_string()));
        assert_eq!(writing.yaml, serde_yaml::to_string(&config).unwrap());
        assert!(writing.yaml.contains(&format!("federation_version: \"{}\"", text)));
        let read = SupergraphConfig::new_from_yaml(&writing.yaml).unwrap();
        assert_eq!(read, config);
    }
}

#[test]
fn failed_installation_leaves_the_configuration_alone() {
    let mut config = config("federation_version: =2.3.4\n");
    let before = config.clone();
    let next = installing(FederationVersion::LatestFedTwo, None)
        .installed(Err("no network".to_string()), &mut config);
    match next {
        Err(ComposeError::Outside(e)) => assert_eq!(e, "no network"),
        _ => panic!("installed"),
    }
    assert_eq!(config, before);
}

#[test]
fn unresolved_subgraphs_are_refused() {
    let mut config = SupergraphConfig::new_from_yaml(
        "federation_version: 2\nsubgraphs:\n  films:\n    schema:\n      sdl: x\n  people:\n    routing_url: https://people.example.com\n    schema:\n      file: ./people.graphql\n",
    )
    .unwrap();
    let before = config.clone();
    let next = installing(FederationVersion::LatestFedTwo, None)
        .installed(Ok::<String, String>("exe".to_string()), &mut config);
    match next {
        Err(ComposeError::Config(fault)) => assert_eq!(
            fault,
            ConfigFault::SubgraphsNotResolved {
                subgraph_names: "[\"films\", \"people\"]".to_string()
            }
        ),
        _ => panic!("not refused"),
    }
    assert_eq!(config.get_federation_version(), Some(ConfigVersion::LatestFedTwo));
    assert_eq!(config, before);
}

#[test]
fn empty_configurations_are_refused() {
    let mut config = SupergraphConfig::from(Vec::new());
    let next = installing(FederationVersion::LatestFedTwo, None)
        .installed(Ok::<String, String>("exe".to_string()), &mut config);
    assert!(matches!(next, Err(ComposeError::Config(ConfigFault::NoSubgraphsFound))));
    assert_eq!(config.get_federation_version(), Some(ConfigVersion::LatestFedTwo));
}

#[test]
fn binary_is_run_on_the_configuration() {
    let composing = composing("/bin/supergraph-v2.8.5");
    assert_eq!(composing.exe, "/bin/supergraph-v2.8.5");
    assert_eq!(composing.args, vec!["compose".to_string(), "/tmp/config.yml".to_string()]);
    assert_eq!(composing.announcement, "composing supergraph with Federation v2.8.5");
    assert_eq!(composing.warning, None);
    assert_eq!(composing.output_file, None);
    assert_eq!(composing.federation_version, FederationVersion::ExactFedTwo(version(2, 8, 5)));
    assert_eq!(composing.num_subgraphs, 2);
}

#[test]
fn binary_writes_the_file_if_it_can() {
    let next = writing("/bin/supergraph-v2.9.0", Some("out.graphql"))
        .written(Ok::<String, String>("config.yml".to_string()));
    let composing = match next {
        Ok(composing) => composing,
        Err(e) => panic!("{:?}", e),
    };
    assert_eq!(
        composing.args,
        vec!["compose".to_string(), "config.yml".to_string(), "out.graphql".to_string()]
    );
    assert_eq!(composing.output_file, Some("out.graphql".to_string()));
    assert_eq!(composing.warning, None);
}

#[test]
fn file_is_ignored_if_the_binary_cannot_write_it() {
    let next = writing("/bin/supergraph-v1.2.3", Some("out.graphql"))
        .written(Ok::<String, String>("config.yml".to_string()));
    let composing = match next {
        Ok(composing) => composing,
        Err(e) => panic!("{:?}", e),
    };
    assert_eq!(composing.args, vec!["compose".to_string(), "config.yml".to_string()]);
    assert_eq!(composing.output_file, None);
    assert_eq!(
        composing.warning.unwrap(),
        "ignoring `--output` because it is not supported in this version of the dependent binary, `supergraph`: =1.2.3. Upgrade to Federation 2.9.0 or greater to install a version of the binary that supports it."
    );
}

#[test]
fn binary_must_have_a_version() {
    let written = |exe: &str| {
        writing(exe, None).written(Ok::<String, String>("config.yml".to_string()))
    };
    assert!(matches!(
        written("/bin/supergraph"),
        Err(ComposeError::Extract(ExtractError::Version(_)))
    ));
    assert!(matches!(
        written("/bin/supergraph-v3.0.0"),
        Err(ComposeError::Extract(ExtractError::UnsupportedFederation))
    ));
    assert!(matches!(written("/"), Err(ComposeError::Extract(ExtractError::NoFileName))));
    assert!(matches!(
        writing("/bin/supergraph", None).written(Err("disk full".to_string())),
        Err(ComposeError::Outside(_))
    ));
    assert!(matches!(
        writing("x", None)
            .run_version::<String>("config.yml".to_string(), FederationVersion::LatestFedTwo),
        Err(ComposeError::NoExactVersion)
    ));
}

const COMPOSED: &str = "{\"Ok\":{\"supergraphSdl\":\"schema\",\"hints\":[{\"message\":\"a hint\",\"code\":\"HINT\",\"nodes\":null,\"omittedNodesCount\":null}]}}";

fn check_composed(output: Result<CompositionOutput, ComposeError<String>>) {
    let output = output.unwrap();
    assert_eq!(output.supergraph_sdl, "schema");
    assert_eq!(output.federation_version, Some("v2.8.5".to_string()));
    assert_eq!(output.hints.len(), 1);
    assert_eq!(output.hints[0].message, "a hint");
}

#[test]
fn printed_supergraph_is_the_result() {
    let reply = ComposeReply::Stdout(COMPOSED.as_bytes().to_vec());
    check_composed(composing("/bin/supergraph-v2.8.5").finished(Ok::<_, String>(reply)));
}

#[test]
fn written_supergraph_is_the_result() {
    let reply = ComposeReply::File(COMPOSED.to_string());
    check_composed(composing("/bin/supergraph-v2.8.5").finished(Ok::<_, String>(reply)));
}

#[test]
fn build_errors_are_reported_with_the_number_of_subgraphs() {
    let reply = ComposeReply::File(
        "{\"Err\":{\"build_errors\":[{\"message\":\"wow\",\"code\":\"BAD\",\"type\":\"composition\"}]}}"
            .to_string(),
    );
    match composing("/bin/supergraph-v2.8.5").finished(Ok::<_, String>(reply)) {
        Err(ComposeError::BuildErrors { build_errors, num_subgraphs }) => {
            assert_eq!(build_errors.len(), 1);
            assert_eq!(build_errors.build_errors[0].message, Some("wow".to_string()));
            assert_eq!(num_subgraphs, 2);
        }
        _ => panic!("composed"),
    }
}

#[test]
fn malformed_output_is_shown() {
    let reply = ComposeReply::Stdout(b"oh no".to_vec());
    let error = composing("/bin/supergraph-v2.8.5")
        .finished(Ok::<_, String>(reply))
        .unwrap_err();
    assert_eq!(error.suggestion(), Some(Suggestion::SubmitIssue));
    match error {
        ComposeError::MalformedOutput { context, output, json_error } => {
            assert_eq!(context, "Output from `/bin/supergraph-v2.8.5 compose` was malformed.");
            assert_eq!(output, "/bin/supergraph-v2.8.5 compose output: oh no");
            assert!(json_error.to_string().starts_with("expected value"));
        }
        _ => panic!("not malformed"),
    }
}

#[test]
fn output_must_be_text() {
    let reply = ComposeReply::Stdout(vec![0x61, 0xff]);
    match composing("/bin/supergraph-v2.8.5").finished(Ok::<_, String>(reply)) {
        Err(ComposeError::OutputNotUtf8 { context, utf8_error }) => {
            assert_eq!(context, "Could not parse output of `/bin/supergraph-v2.8.5 compose`");
            assert_eq!(utf8_error.valid_up_to(), 1);
        }
        _ => panic!("text"),
    }
}

#[test]
fn command_may_fail_to_run() {
    let error = composing("/bin/supergraph-v2.8.5")
        .finished(Err("Failed to execute command".to_string()))
        .unwrap_err();
    assert_eq!(error.suggestion(), None);
    assert_eq!(error.message(), None);
    assert!(matches!(error, ComposeError::Outside(_)));
}

#[test]
fn reading_decides_the_result() {
    let reading = BuildReading::Composed(BuildOutput {
        supergraph_sdl: "s".to_string(),
        hints: Vec::new(),
    });
    let output = composing("/bin/supergraph-v0.36.1.exe").concluded::<String>("", reading).unwrap();
    assert_eq!(output.supergraph_sdl, "s");
    assert_eq!(output.federation_version, Some("v0.36.1".to_string()));
}

#[test]
fn compose_wraps_the_output() {
    let output = CompositionOutput {
        hints: Vec::new(),
        supergraph_sdl: "s".to_string(),
        federation_version: None,
    };
    let RoverOutput::CompositionResult(result) = compose().compose::<String>(Ok(output)).unwrap();
    assert_eq!(result.supergraph_sdl, "s");
    assert!(matches!(
        compose().compose::<String>(Err(ComposeError::NoExactVersion)),
        Err(ComposeError::NoExactVersion)
    ));
}

#[test]
fn errors_have_messages() {
    assert_eq!(
        ComposeError::<String>::MissingConfig.message(),
        Some("error getting supergraph config".to_string())
    );
    assert_eq!(
        ComposeError::<String>::NoExactVersion.message(),
        Some("failed to get exact Federation version".to_string())
    );
    assert_eq!(
        ComposeError::<String>::Extract(ExtractError::UnsupportedFederation).message(),
        Some("unsupported Federation version".to_string())
    );
}

#[test]
fn run_asks_for_a_static_configuration() {
    let query = compose().run();
    assert_eq!(query.graph_ref, Some(GraphRef { text: "graph@current".to_string() }));
    assert_eq!(query.supergraph_yaml, Some(FileDescriptorType::Stdin));
    assert_eq!(query.federation_version, Some(FederationVersion::LatestFedOne));
    assert_eq!(query.profile, ProfileOpt { profile_name: "default".to_string() });
    assert!(query.create_static_config);
}

#[test]
fn run_needs_a_configuration() {
    let found = config("federation_version: 2\n");
    assert_eq!(compose().configured::<String>(Ok(Some(found.clone()))).unwrap(), found);
    assert!(matches!(
        compose().configured::<String>(Ok(None)),
        Err(ComposeError::MissingConfig)
    ));
    assert!(matches!(
        compose().configured(Err("x".to_string())),
        Err(ComposeError::Outside(_))
    ));
}

#[test]
fn file_asked_of_an_old_binary_changes_nothing_but_the_warning() {
    for exe in ["/bin/supergraph-v2.8.5", "/bin/supergraph-v0.36.0", "/bin/supergraph-v1.99.0"] {
        let run = |output_file: Option<&str>| {
            let mut config = config("federation_version: =2.3.4\n");
            let writing = match installing(FederationVersion::LatestFedTwo, output_file)
                .installed(Ok::<String, String>(exe.to_string()), &mut config)
            {
                Ok(writing) => writing,
                Err(e) => panic!("{:?}", e),
            };
            let composing = match writing.written(Ok::<String, String>("c.yml".to_string())) {
                Ok(composing) => composing,
                Err(e) => panic!("{:?}", e),
            };
            assert_eq!(composing.output_file, None);
            assert_eq!(composing.warning.is_some(), output_file.is_some());
            let args = composing.args.clone();
            let reply = ComposeReply::Stdout(COMPOSED.as_bytes().to_vec());
            let output = composing.finished(Ok::<_, String>(reply)).unwrap();
            (config, args, output.supergraph_sdl, output.federation_version)
        };
        assert_eq!(run(Some("out")), run(None));
    }
}
