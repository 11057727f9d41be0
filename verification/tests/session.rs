use rover_compose::dev::Dev;
use rover_compose::options::{LicenseAccepter, PluginOpts, ProfileOpt};
use rover_compose::orchestrator::{
    ComposeStage, Composer, FullyResolvedSupergraphConfig, Orchestrator, Received, RouterConfig,
    Startup, StartupError, StartupReply, StartupStage, SubgraphUpdate, SubgraphUpdated,
};
use rover_compose::subgraphs::{SubgraphSchema, SubgraphSchemas};
use rover_compose::version::{FederationVersion, Version};

/// A subgraph with its routing URL.
fn subgraph(name: &str, sdl: &str, routing_url: &str) -> SubgraphSchema<String> {
    SubgraphSchema {
        name: name.to_string(),
        sdl: sdl.to_string(),
        rest: routing_url.to_string(),
    }
}

fn startup(version_override: Option<&str>) -> Startup<String> {
    let mut subgraphs = SubgraphSchemas::new();
    subgraphs.insert(subgraph("films", "old", "https://films.example.com"));
    subgraphs.insert(subgraph("people", "p", "https://people.example.com"));
    Orchestrator::new(
        Some("/opt".to_string()),
        PluginOpts {
            profile: ProfileOpt { profile_name: "default".to_string() },
            elv2_license_accepter: LicenseAccepter { elv2_license_accepted: None },
            skip_update: false,
        },
        Composer {
            supergraph_config: FullyResolvedSupergraphConfig {
                subgraphs,
                federation_version: FederationVersion::LatestFedTwo,
            },
        },
        RouterConfig {
            raw_socket_name: "supergraph.sock".to_string(),
            router_address: "127.0.0.1:4000".to_string(),
            supergraph_schema_path: "/tmp/supergraph.graphql".to_string(),
            router_config_path: "/tmp/router.yaml".to_string(),
            router_listen_path: "/".to_string(),
        },
        Some("license".to_string()),
        version_override.map(|version| version.to_string()),
    )
}

fn done(startup: Startup<String>) -> Startup<String> {
    match startup.advance(StartupReply::<String>::Done) {
        Ok(Some(next)) => next,
        Ok(None) => panic!("a session exists"),
        Err(e) => panic!("{:?}", e),
    }
}

fn orchestrator(version_override: Option<&str>) -> Orchestrator<String> {
    let mut startup = startup(version_override);
    while startup.stage != StartupStage::Ready {
        startup = done(startup);
    }
    startup.orchestrator
}

fn read(text: &str) -> Option<FederationVersion> {
    match Orchestrator::<()>::get_federation_version_from_env(&Some(text.to_string())) {
        Ok(version) => {
            assert!(version.is_some());
            version
        }
        Err(_) => None,
    }
}

fn version(major: u64, minor: u64, patch: u64, pre: &str) -> Version {
    Version { major, minor, patch, pre: pre.to_string(), build: String::new() }
}

#[test]
fn environment_may_ask_for_an_exact_version() {
    assert_eq!(read("2.3.4"), Some(FederationVersion::ExactFedTwo(version(2, 3, 4, ""))));
    assert_eq!(read("2.0.0"), Some(FederationVersion::ExactFedTwo(version(2, 0, 0, ""))));
    assert_eq!(read("0.36.0"), Some(FederationVersion::ExactFedOne(version(0, 36, 0, ""))));
    assert_eq!(Orchestrator::<()>::get_federation_version_from_env(&None).unwrap(), None);
}

#[test]
fn versions_that_are_not_offered_are_ignored() {
    for text in ["0.35.9", "1.0.0", "3.0.0", "2", "latest-2", "=2.3.4", "v2.3.4", "", "x", "2.3"] {
        assert_eq!(read(text), None);
    }
}

#[test]
fn pre_releases_of_2_0_0_are_offered_from_preview_9_on() {
    for pre in ["preview.9", "preview.9.0", "preview.10", "preview.x", "preview0", "rc.0", "previewa"] {
        assert_eq!(
            read(&format!("2.0.0-{}", pre)),
            Some(FederationVersion::ExactFedTwo(version(2, 0, 0, pre)))
        );
    }
    for pre in ["preview", "preview.0", "preview.8", "preview.8.9", "alpha.9", "0", "99", "RC.1", "prevex"] {
        assert_eq!(read(&format!("2.0.0-{}", pre)), None);
    }
    assert!(read("2.0.1-alpha").is_some());
}

#[test]
fn session_starts_in_order() {
    let stages = [
        StartupStage::BindRouter,
        StartupStage::CreateComposeRunner,
        StartupStage::InstallRouter,
        StartupStage::StartConfigHandler,
        StartupStage::Compose,
    ];
    let mut startup = startup(None);
    for stage in stages {
        assert_eq!(startup.stage, stage);
        startup = done(startup);
    }
    assert_eq!(startup.stage, StartupStage::Ready);
    assert_eq!(startup.raw_socket_name, "supergraph.sock");
    let orchestrator = startup.orchestrator;
    assert_eq!(orchestrator.compose_runner.supergraph_schema_path, "/tmp/supergraph.graphql");
    let router = orchestrator.router_runner.unwrap();
    assert_eq!(router.supergraph_schema_path, "/tmp/supergraph.graphql");
    assert_eq!(router.router_config_path, "/tmp/router.yaml");
    assert_eq!(router.router_socket_addr, "127.0.0.1:4000");
    assert_eq!(router.router_listen_path, "/");
    assert_eq!(router.override_install_path, Some("/opt".to_string()));
    assert_eq!(router.license, Some("license".to_string()));
}

#[test]
fn address_in_use_stops_a_session() {
    match startup(None).advance(StartupReply::Failed("EADDRINUSE".to_string())) {
        Err(StartupError::AddressInUse { message, suggestion }) => {
            assert_eq!(
                message,
                "You cannot bind the router to '127.0.0.1:4000' because that address is already in use by another process on this machine."
            );
            assert_eq!(
                suggestion,
                "Try setting a different port for the router to bind to with the `--supergraph-port` argument, or shut down the process bound to '127.0.0.1:4000'."
            );
        }
        _ => panic!("bound"),
    }
}

#[test]
fn later_errors_stop_a_session() {
    let mut steps = 1;
    while steps < 5 {
        let mut state = startup(None);
        let mut finished = 0;
        while finished < steps {
            state = done(state);
            finished += 1;
        }
        match state.advance(StartupReply::Failed("no".to_string())) {
            Err(StartupError::Outside(e)) => assert_eq!(e, "no"),
            _ => panic!("went on"),
        }
        steps += 1;
    }
}

#[test]
fn environment_overrides_the_version_of_the_supergraph() {
    let version_of = |orchestrator: Orchestrator<String>| {
        orchestrator.compose_runner.composer.supergraph_config.federation_version
    };
    assert_eq!(version_of(orchestrator(None)), FederationVersion::LatestFedTwo);
    assert_eq!(version_of(orchestrator(Some("nonsense"))), FederationVersion::LatestFedTwo);
    assert_eq!(
        version_of(orchestrator(Some("2.3.4"))),
        FederationVersion::ExactFedTwo(version(2, 3, 4, ""))
    );
}

fn settle(
    orchestrator: &Orchestrator<String>,
    run: Result<(), String>,
    spawn: Result<(), String>,
    kill: Result<(), String>,
) -> (Result<(), String>, bool) {
    let mut killed = false;
    let mut stage = ComposeStage::RunComposer;
    loop {
        let reply = match &stage {
            ComposeStage::RunComposer => run.clone(),
            ComposeStage::SpawnRouter => spawn.clone(),
            ComposeStage::KillRouter(_) => {
                killed = true;
                kill.clone()
            }
            ComposeStage::Done(result) => return (result.clone(), killed),
        };
        stage = orchestrator.compose(stage, reply);
    }
}

#[test]
fn failed_composition_stops_the_router() {
    let orchestrator = orchestrator(None);
    let ok = || Ok(());
    let err = |text: &str| Err(text.to_string());
    assert_eq!(settle(&orchestrator, ok(), ok(), err("k")), (Ok(()), false));
    assert_eq!(settle(&orchestrator, err("r"), ok(), ok()), (err("r"), true));
    assert_eq!(settle(&orchestrator, err("r"), ok(), err("k")), (err("r"), true));
    assert_eq!(settle(&orchestrator, ok(), err("s"), ok()), (err("s"), true));
    assert_eq!(settle(&orchestrator, err("r"), err("s"), err("k")), (err("r"), true));
}

#[test]
fn composition_without_a_router_stops_none() {
    let mut orchestrator = orchestrator(None);
    orchestrator.router_runner = None;
    assert_eq!(
        settle(&orchestrator, Ok(()), Err("s".to_string()), Ok(())),
        (Ok(()), false)
    );
    assert_eq!(
        settle(&orchestrator, Err("r".to_string()), Ok(()), Ok(())),
        (Err("r".to_string()), false)
    );
    assert!(matches!(
        orchestrator.compose(ComposeStage::SpawnRouter, Err("s".to_string())),
        ComposeStage::Done(Err(_))
    ));
}

fn sdl(orchestrator: &Orchestrator<String>, name: &str) -> Option<String> {
    orchestrator
        .compose_runner
        .composer
        .supergraph_config
        .subgraphs
        .get(&name.to_string())
        .map(|subgraph| subgraph.sdl.clone())
}

fn routing_url(orchestrator: &Orchestrator<String>, name: &str) -> Option<String> {
    orchestrator
        .compose_runner
        .composer
        .supergraph_config
        .subgraphs
        .get(&name.to_string())
        .map(|subgraph| subgraph.rest.clone())
}

#[test]
fn new_schema_is_composed_once() {
    let mut orchestrator = orchestrator(None);
    assert_eq!(
        orchestrator.update_subgraph("films".to_string(), "new".to_string()),
        SubgraphUpdate::Recompose
    );
    assert_eq!(sdl(&orchestrator, "films"), Some("new".to_string()));
    assert_eq!(sdl(&orchestrator, "people"), Some("p".to_string()));
    assert_eq!(
        routing_url(&orchestrator, "films"),
        Some("https://films.example.com".to_string())
    );
    assert_eq!(
        routing_url(&orchestrator, "people"),
        Some("https://people.example.com".to_string())
    );
    assert_eq!(
        orchestrator.update_subgraph("films".to_string(), "new".to_string()),
        SubgraphUpdate::Unchanged
    );
}

#[test]
fn unknown_subgraph_is_not_added() {
    let mut orchestrator = orchestrator(None);
    assert_eq!(
        orchestrator.update_subgraph("reviews".to_string(), "new".to_string()),
        SubgraphUpdate::NotFound {
            message: "subgraph with name 'reviews' does not exist".to_string()
        }
    );
    assert_eq!(sdl(&orchestrator, "reviews"), None);
}

#[test]
fn messages_are_announced() {
    let mut orchestrator = orchestrator(None);
    let (announcement, update) = orchestrator.handle_subgraph_message(SubgraphUpdated {
        subgraph_name: "people".to_string(),
        new_sdl: "q".to_string(),
    });
    assert_eq!(announcement, "updating the schema for the 'people' subgraph in the session");
    assert_eq!(update, SubgraphUpdate::Recompose);
    assert_eq!(
        Orchestrator::<()>::update_report::<String>("people", &Ok(())),
        Some("successfully composed after updating the 'people' subgraph".to_string())
    );
    assert_eq!(Orchestrator::<()>::update_report("people", &Err("bad".to_string())), None);
}

#[test]
fn last_schema_counts() {
    let mut orchestrator = orchestrator(None);
    let messages = [("films", "1"), ("reviews", "x"), ("films", "2"), ("people", "3"), ("films", "4")];
    for (name, new_sdl) in messages {
        let message = SubgraphUpdated {
            subgraph_name: name.to_string(),
            new_sdl: new_sdl.to_string(),
        };
        match orchestrator.receive_all_subgraph_updates(Some(message)) {
            Received::Handled { subgraph_name, .. } => assert_eq!(subgraph_name, name),
            Received::Closed => panic!("closed"),
        }
    }
    assert_eq!(orchestrator.receive_all_subgraph_updates(None), Received::Closed);
    assert_eq!(sdl(&orchestrator, "films"), Some("4".to_string()));
    assert_eq!(sdl(&orchestrator, "people"), Some("3".to_string()));
    assert_eq!(sdl(&orchestrator, "reviews"), None);
}

#[test]
fn schemas_are_kept_by_name() {
    let mut schemas = SubgraphSchemas::new();
    let a = "a".to_string();
    assert!(schemas.get(&a).is_none());
    schemas.insert(subgraph("a", "1", "x"));
    schemas.insert(subgraph("b", "2", "y"));
    schemas.insert(subgraph("a", "3", "z"));
    assert_eq!(schemas.get(&a).unwrap().sdl, "3");
    assert_eq!(schemas.get(&a).unwrap().rest, "z");
    assert_eq!(schemas.get(&a).unwrap().name, "a");
    assert_eq!(schemas.get(&"b".to_string()).unwrap().sdl, "2");
    schemas.set_sdl(&a, "4".to_string());
    schemas.set_sdl(&"c".to_string(), "5".to_string());
    assert_eq!(schemas.get(&a).unwrap().sdl, "4");
    assert_eq!(schemas.get(&a).unwrap().rest, "z");
    assert_eq!(schemas.get(&"b".to_string()).unwrap().sdl, "2");
    assert!(schemas.get(&"c".to_string()).is_none());
}

#[test]
fn existing_session_is_left_alone() {
    assert!(matches!(startup(None).advance(StartupReply::<String>::SessionExists), Ok(None)));
}

#[test]
fn unreadable_version_is_kept_for_the_user() {
    assert!(done(startup(Some("2.3.4"))).version_error.is_none());
    assert!(done(startup(None)).version_error.is_none());
    let next = done(startup(Some("nonsense")));
    assert!(next.version_error.unwrap().to_string().contains("`=nonsense` is not supported"));
    let next = done(startup(Some("0.35.0")));
    assert!(next.version_error.unwrap().to_string().contains("'=0.36.0'"));
}

#[test]
fn dev_hands_everything_on() {
    let dev = Dev { opts: vec![1, 2] };
    let run = dev.run(Some("/opt".to_string()), "client");
    assert_eq!(run.command.opts, vec![1, 2]);
    assert_eq!(run.override_install_path, Some("/opt".to_string()));
    assert_eq!(run.client_config, "client");
    assert_eq!(dev.clone().opts, vec![1, 2]);
}
