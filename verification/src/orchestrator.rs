//! A development session: the router runs on a supergraph that is composed again whenever the
//! schema of a subgraph changes.
//!
//! What is done outside (binding an address, composing, starting and stopping the router) is
//! asked for step by step, and each step takes up what came of the one before.
use apollo_federation_types::config::ConfigError;
use vstd::prelude::*;

use crate::options::PluginOpts;
use crate::outside::parse_federation_version;
use crate::subgraphs::{SubgraphSchemas, SubgraphView};
use crate::text::{concat2, concat3};
use crate::version::{FederationVersion, FederationVersionView};

verus! {

/// A supergraph whose subgraphs all have their schemas. `R` is what else is known of a subgraph.
pub struct FullyResolvedSupergraphConfig<R> {
    pub subgraphs: SubgraphSchemas<R>,
    pub federation_version: FederationVersion,
}

/// What composition works on.
pub struct Composer<R> {
    pub supergraph_config: FullyResolvedSupergraphConfig<R>,
}

/// Composes a supergraph and leaves its schema at a path.
pub struct ComposeRunner<R> {
    pub composer: Composer<R>,
    pub supergraph_schema_path: String,
}

/// Runs the router on the schema at a path.
#[derive(Debug, PartialEq, Eq)]
pub struct RouterRunner {
    pub supergraph_schema_path: String,
    pub router_config_path: String,
    pub plugin_opts: PluginOpts,
    pub router_socket_addr: String,
    pub router_listen_path: String,
    pub override_install_path: Option<String>,
    pub license: Option<String>,
}

/// What the configuration of the router says.
#[derive(Debug, PartialEq, Eq)]
pub struct RouterConfig {
    pub raw_socket_name: String,
    pub router_address: String,
    pub supergraph_schema_path: String,
    pub router_config_path: String,
    pub router_listen_path: String,
}

/// The top-level runner of a session.
pub struct Orchestrator<R> {
    pub compose_runner: ComposeRunner<R>,
    pub router_runner: Option<RouterRunner>,
}

/// A subgraph has a new schema.
#[derive(Debug, PartialEq, Eq)]
pub struct SubgraphUpdated {
    pub subgraph_name: String,
    pub new_sdl: String,
}

// ---- starting a session ----

/// What a session that starts is about to do.
#[derive(Debug, Clone, Copy, PartialEq, Eq)]
pub enum StartupStage {
    /// See whether a session exists for the address already. If not, remove what an earlier one
    /// left at the socket's name, and bind the router's address.
    BindRouter,
    CreateComposeRunner,
    InstallRouter,
    StartConfigHandler,
    Compose,
    /// Nothing: the session has started.
    Ready,
}

/// A session that starts.
pub struct Startup<R> {
    pub stage: StartupStage,
    pub raw_socket_name: String,
    pub router_address: String,
    /// The version of Federation that the environment asks for.
    pub version_override: Option<String>,
    /// Why that version counts for nothing, where it does.
    pub version_error: Option<ConfigError>,
    pub orchestrator: Orchestrator<R>,
}

/// What came of the work of a stage. `E` is what goes wrong outside.
#[derive(Debug)]
pub enum StartupReply<E> {
    Done,
    /// A session exists for the address already.
    SessionExists,
    Failed(E),
}

/// Why a session did not start. `E` is what goes wrong outside.
#[derive(Debug)]
pub enum StartupError<E> {
    /// The router's address cannot be bound.
    AddressInUse { message: String, suggestion: String },
    Outside(E),
}

/// What the user is told when the router's address cannot be bound.
pub open spec fn address_in_use_text(address: Seq<char>) -> Seq<char> {
    "You cannot bind the router to '"@ + address
        + "' because that address is already in use by another process on this machine."@
}

/// What the user can do when the router's address cannot be bound.
pub open spec fn address_in_use_suggestion(address: Seq<char>) -> Seq<char> {
    "Try setting a different port for the router to bind to with the `--supergraph-port` argument, or shut down the process bound to '"@
        + address + "'."@
}

/// The stage that follows when the work of a stage is done.
pub open spec fn stage_after(stage: StartupStage) -> StartupStage {
    match stage {
        StartupStage::BindRouter => StartupStage::CreateComposeRunner,
        StartupStage::CreateComposeRunner => StartupStage::InstallRouter,
        StartupStage::InstallRouter => StartupStage::StartConfigHandler,
        StartupStage::StartConfigHandler => StartupStage::Compose,
        StartupStage::Compose => StartupStage::Ready,
        StartupStage::Ready => StartupStage::Ready,
    }
}

/// The version of Federation that the environment asks for, if it asks for one and it is one.
pub open spec fn version_from_env(text: Option<String>) -> Option<FederationVersionView> {
    match text {
        Some(version) => crate::version::requested_version(version@),
        None => None,
    }
}

/// Why the version that the environment asks for counts for nothing, if it asks for one that is
/// none.
pub open spec fn env_version_error(text: Option<String>) -> Option<ConfigError> {
    match text {
        Some(version) if crate::version::requested_version(version@) is None => Some(
            crate::outside::federation_version_error(seq!['='] + version@),
        ),
        _ => None,
    }
}

impl<R> Orchestrator<R> {
    /// The version of Federation that the supergraph is composed with.
    pub open spec fn version(self) -> FederationVersionView {
        self.compose_runner.composer.supergraph_config.federation_version@
    }

    /// The subgraphs by name.
    pub open spec fn schemas(self) -> Map<Seq<char>, SubgraphView<R>> {
        self.compose_runner.composer.supergraph_config.subgraphs@
    }

    /// Whether nothing but the Federation version differs.
    pub open spec fn differs_in_version_only(self, other: Orchestrator<R>) -> bool {
        &&& self.compose_runner.composer.supergraph_config.subgraphs
            == other.compose_runner.composer.supergraph_config.subgraphs
        &&& self.compose_runner.supergraph_schema_path
            == other.compose_runner.supergraph_schema_path
        &&& self.router_runner == other.router_runner
    }

    /// The version of Federation that the environment asks for: the text of an exact version. A
    /// text that is none counts as if it were not there; the error says why.
    pub fn get_federation_version_from_env(version_override: &Option<String>) -> (r: Result<
        Option<FederationVersion>,
        ConfigError,
    >)
        ensures
            match r {
                Ok(Some(v)) => version_from_env(*version_override) == Some(v@),
                Ok(None) => version_override is None,
                Err(e) => env_version_error(*version_override) == Some(e),
            },
    {
        match version_override {
            Some(version) => {
                proof {
                    reveal_strlit("=");
                    assert("="@ =~= seq!['=']);
                }
                let text = concat2("=", version.as_str());
                assert(text@.skip(1) =~= version@);
                match parse_federation_version(text.as_str()) {
                    Ok(v) => {
                        proof {
                            crate::laws::notation::law_denoted_version(version@, v@.exact()->0);
                        }
                        Ok(Some(v))
                    },
                    Err(e) => Err(e),
                }
            },
            None => Ok(None),
        }
    }

    /// Starts a session.
    pub fn new(
        override_install_path: Option<String>,
        plugin_opts: PluginOpts,
        composer: Composer<R>,
        router_config: RouterConfig,
        license: Option<String>,
        version_override: Option<String>,
    ) -> (r: Startup<R>)
        ensures
            r.stage is BindRouter,
            r.raw_socket_name == router_config.raw_socket_name,
            r.router_address == router_config.router_address,
            r.version_override == version_override,
            r.version_error is None,
            r.orchestrator.compose_runner.composer == composer,
            r.orchestrator.compose_runner.supergraph_schema_path
                == router_config.supergraph_schema_path,
            r.orchestrator.router_runner == Some(
                RouterRunner {
                    supergraph_schema_path: router_config.supergraph_schema_path,
                    router_config_path: router_config.router_config_path,
                    plugin_opts,
                    router_socket_addr: router_config.router_address,
                    router_listen_path: router_config.router_listen_path,
                    override_install_path,
                    license,
                },
            ),
    {
        Startup {
            stage: StartupStage::BindRouter,
            raw_socket_name: router_config.raw_socket_name,
            router_address: router_config.router_address.clone(),
            version_override,
            version_error: None,
            orchestrator: Orchestrator {
                compose_runner: ComposeRunner {
                    composer,
                    supergraph_schema_path: router_config.supergraph_schema_path.clone(),
                },
                router_runner: Some(
                    RouterRunner {
                        supergraph_schema_path: router_config.supergraph_schema_path,
                        router_config_path: router_config.router_config_path,
                        plugin_opts,
                        router_socket_addr: router_config.router_address,
                        router_listen_path: router_config.router_listen_path,
                        override_install_path,
                        license,
                    },
                ),
            },
        }
    }
}

impl<R> Startup<R> {
    /// Whether the session is at `next` when the work of its stage is done. The version that the
    /// environment asks for replaces that of the supergraph as soon as the address is bound.
    pub open spec fn goes_on_to(self, next: Startup<R>) -> bool {
        &&& next.stage == stage_after(self.stage)
        &&& next.raw_socket_name == self.raw_socket_name
        &&& next.router_address == self.router_address
        &&& next.version_override == self.version_override
        &&& next.orchestrator.differs_in_version_only(self.orchestrator)
        &&& next.orchestrator.version() == match version_from_env(self.version_override) {
            Some(version) if self.stage is BindRouter => version,
            _ => self.orchestrator.version(),
        }
        &&& next.version_error == if self.stage is BindRouter {
            env_version_error(self.version_override)
        } else {
            self.version_error
        }
    }

    /// Goes on when the work of a stage is done, or gives up when it could not be done. Where a
    /// session exists for the address already, no other is started.
    pub fn advance<E>(self, reply: StartupReply<E>) -> (r: Result<
        Option<Startup<R>>,
        StartupError<E>,
    >)
        requires
            !(self.stage is Ready),
        ensures
            match (reply, r) {
                (StartupReply::Done, Ok(Some(next))) => self.goes_on_to(next),
                (StartupReply::SessionExists, Ok(None)) => true,
                (StartupReply::Failed(e), Err(StartupError::Outside(error))) => error == e && !(
                self.stage is BindRouter),
                (StartupReply::Failed(_), Err(StartupError::AddressInUse { message, suggestion })) => {
                    &&& self.stage is BindRouter
                    &&& message@ == address_in_use_text(self.router_address@)
                    &&& suggestion@ == address_in_use_suggestion(self.router_address@)
                },
                _ => false,
            },
    {
        let mut next = self;
        match reply {
            StartupReply::Done => {},
            StartupReply::SessionExists => return Ok(None),
            StartupReply::Failed(e) => {
                return match next.stage {
                    StartupStage::BindRouter => Err(
                        StartupError::AddressInUse {
                            message: concat3(
                                "You cannot bind the router to '",
                                next.router_address.as_str(),
                                "' because that address is already in use by another process on this machine.",
                            ),
                            suggestion: concat3(
                                "Try setting a different port for the router to bind to with the `--supergraph-port` argument, or shut down the process bound to '",
                                next.router_address.as_str(),
                                "'.",
                            ),
                        },
                    ),
                    _ => Err(StartupError::Outside(e)),
                };
            },
        }
        next.stage =
        match next.stage {
            StartupStage::BindRouter => {
                next.version_error = None;
                match Orchestrator::<R>::get_federation_version_from_env(&next.version_override) {
                    Ok(Some(version)) => {
                        next.orchestrator.compose_runner.composer.supergraph_config.federation_version =
                        version;
                    },
                    Ok(None) => {},
                    Err(e) => next.version_error = Some(e),
                }
                StartupStage::CreateComposeRunner
            },
            StartupStage::CreateComposeRunner => StartupStage::InstallRouter,
            StartupStage::InstallRouter => StartupStage::StartConfigHandler,
            StartupStage::StartConfigHandler => StartupStage::Compose,
            _ => StartupStage::Ready,
        };
        Ok(Some(next))
    }
}

// ---- composing ----

/// What a composition is about to do. `E` is what goes wrong outside.
#[derive(Debug)]
pub enum ComposeStage<E> {
    RunComposer,
    /// Start the router, if it does not run yet.
    SpawnRouter,
    /// Stop the router, because of an error.
    KillRouter(E),
    Done(Result<(), E>),
}

impl<R> Orchestrator<R> {
    /// What follows when composing or starting the router went wrong: the router is stopped, if
    /// there is one.
    pub open spec fn after_failure<E>(self, e: E) -> ComposeStage<E> {
        if self.router_runner is Some {
            ComposeStage::KillRouter(e)
        } else {
            ComposeStage::Done(Err(e))
        }
    }

    /// What follows on a stage of a composition.
    pub open spec fn compose_step<E>(self, stage: ComposeStage<E>, reply: Result<(), E>) -> ComposeStage<
        E,
    > {
        match (stage, reply) {
            (ComposeStage::RunComposer, Ok(_)) if self.router_runner is Some =>
                ComposeStage::SpawnRouter,
            (ComposeStage::RunComposer, Ok(_)) => ComposeStage::Done(Ok(())),
            (ComposeStage::RunComposer, Err(e)) => self.after_failure(e),
            (ComposeStage::SpawnRouter, Ok(_)) => ComposeStage::Done(Ok(())),
            (ComposeStage::SpawnRouter, Err(e)) => self.after_failure(e),
            (ComposeStage::KillRouter(e), _) => ComposeStage::Done(Err(e)),
            (ComposeStage::Done(result), _) => ComposeStage::Done(result),
        }
    }

    fn fail<E>(&self, e: E) -> (r: ComposeStage<E>)
        ensures
            r == self.after_failure(e),
    {
        if self.router_runner.is_some() {
            ComposeStage::KillRouter(e)
        } else {
            ComposeStage::Done(Err(e))
        }
    }

    /// Composes the supergraph, which makes the router reload: given what came of a stage, says
    /// what follows.
    pub fn compose<E>(&self, stage: ComposeStage<E>, reply: Result<(), E>) -> (r: ComposeStage<E>)
        ensures
            r == self.compose_step(stage, reply),
    {
        match stage {
            ComposeStage::RunComposer => match reply {
                Ok(()) => if self.router_runner.is_some() {
                    ComposeStage::SpawnRouter
                } else {
                    ComposeStage::Done(Ok(()))
                },
                Err(e) => self.fail(e),
            },
            ComposeStage::SpawnRouter => match reply {
                Ok(()) => ComposeStage::Done(Ok(())),
                Err(e) => self.fail(e),
            },
            ComposeStage::KillRouter(e) => ComposeStage::Done(Err(e)),
            ComposeStage::Done(result) => ComposeStage::Done(result),
        }
    }
}

// ---- taking up changes ----

/// What is to be done about a new schema.
#[derive(Debug, PartialEq, Eq)]
pub enum SubgraphUpdate {
    /// There is no such subgraph: tell the user.
    NotFound { message: String },
    /// Nothing: the schema is the one that is there.
    Unchanged,
    /// Compose the supergraph.
    Recompose,
}

/// What came of looking for a new schema.
#[derive(Debug, PartialEq, Eq)]
pub enum Received {
    /// There will be no more.
    Closed,
    Handled { announcement: String, subgraph_name: String, update: SubgraphUpdate },
}

/// What the user is told of a subgraph that is not there.
pub open spec fn not_found_text(name: Seq<char>) -> Seq<char> {
    "subgraph with name '"@ + name + "' does not exist"@
}

/// What the user is told before a schema is taken up.
pub open spec fn updating_text(name: Seq<char>) -> Seq<char> {
    "updating the schema for the '"@ + name + "' subgraph in the session"@
}

/// What the user is told when a new schema composes.
pub open spec fn composed_text(name: Seq<char>) -> Seq<char> {
    "successfully composed after updating the '"@ + name + "' subgraph"@
}

/// The subgraphs when one has a new schema: what else is known of it stays, and subgraphs that are
/// not there are not added.
pub open spec fn with_schema<R>(
    schemas: Map<Seq<char>, SubgraphView<R>>,
    name: Seq<char>,
    sdl: Seq<char>,
) -> Map<Seq<char>, SubgraphView<R>> {
    if schemas.contains_key(name) {
        schemas.insert(name, SubgraphView { sdl, rest: schemas[name].rest })
    } else {
        schemas
    }
}

/// Whether `r` is what is to be done about a new schema.
pub open spec fn is_update<R>(
    schemas: Map<Seq<char>, SubgraphView<R>>,
    name: Seq<char>,
    sdl: Seq<char>,
    r: SubgraphUpdate,
) -> bool {
    match r {
        SubgraphUpdate::NotFound { message } => !schemas.contains_key(name) && message@
            == not_found_text(name),
        SubgraphUpdate::Unchanged => schemas.contains_key(name) && schemas[name].sdl == sdl,
        SubgraphUpdate::Recompose => schemas.contains_key(name) && schemas[name].sdl != sdl,
    }
}

impl<R> Orchestrator<R> {
    /// Whether nothing but the schemas differs.
    pub open spec fn differs_in_schemas_only(self, other: Orchestrator<R>) -> bool {
        &&& self.compose_runner.composer.supergraph_config.federation_version
            == other.compose_runner.composer.supergraph_config.federation_version
        &&& self.compose_runner.supergraph_schema_path
            == other.compose_runner.supergraph_schema_path
        &&& self.router_runner == other.router_runner
    }

    /// Updates the schema of a subgraph, and says whether to compose the supergraph.
    pub fn update_subgraph(&mut self, subgraph_name: String, new_sdl: String) -> (r: SubgraphUpdate)
        ensures
            final(self).schemas() == with_schema(old(self).schemas(), subgraph_name@, new_sdl@),
            final(self).differs_in_schemas_only(*old(self)),
            is_update(old(self).schemas(), subgraph_name@, new_sdl@, r),
    {
        let changed = match self.compose_runner.composer.supergraph_config.subgraphs.get(
            &subgraph_name,
        ) {
            Some(subgraph) => subgraph.sdl != new_sdl,
            None => {
                return SubgraphUpdate::NotFound {
                    message: concat3(
                        "subgraph with name '",
                        subgraph_name.as_str(),
                        "' does not exist",
                    ),
                };
            },
        };
        if changed {
            self.compose_runner.composer.supergraph_config.subgraphs.set_sdl(
                &subgraph_name,
                new_sdl,
            );
            SubgraphUpdate::Recompose
        } else {
            assert(self.schemas() =~= with_schema(self.schemas(), subgraph_name@, new_sdl@));
            SubgraphUpdate::Unchanged
        }
    }

    /// What to tell the user of the composition that followed on an update. An error speaks for
    /// itself.
    pub fn update_report<E>(subgraph_name: &str, composed: &Result<(), E>) -> (r: Option<String>)
        ensures
            crate::text::optional(r) == match composed {
                Ok(_) => Some(composed_text(subgraph_name@)),
                Err(_) => None,
            },
    {
        match composed {
            Ok(()) => Some(
                concat3(
                    "successfully composed after updating the '",
                    subgraph_name,
                    "' subgraph",
                ),
            ),
            Err(_) => None,
        }
    }

    /// Takes up a new schema: gives what to tell the user first, and what is to be done.
    pub fn handle_subgraph_message(&mut self, message: SubgraphUpdated) -> (r: (
        String,
        SubgraphUpdate,
    ))
        ensures
            r.0@ == updating_text(message.subgraph_name@),
            final(self).schemas() == with_schema(
                old(self).schemas(),
                message.subgraph_name@,
                message.new_sdl@,
            ),
            final(self).differs_in_schemas_only(*old(self)),
            is_update(
                old(self).schemas(),
                message.subgraph_name@,
                message.new_sdl@,
                r.1,
            ),
    {
        let announcement = concat3(
            "updating the schema for the '",
            message.subgraph_name.as_str(),
            "' subgraph in the session",
        );
        (announcement, self.update_subgraph(message.subgraph_name, message.new_sdl))
    }

    /// Takes up the next new schema, until there are no more.
    pub fn receive_all_subgraph_updates(&mut self, next: Option<SubgraphUpdated>) -> (r: Received)
        ensures
            match (next, r) {
                (Some(message), Received::Handled { announcement, subgraph_name, update }) => {
                    &&& announcement@ == updating_text(message.subgraph_name@)
                    &&& subgraph_name == message.subgraph_name
                    &&& is_update(
                        old(self).schemas(),
                        message.subgraph_name@,
                        message.new_sdl@,
                        update,
                    )
                    &&& final(self).schemas() == with_schema(
                        old(self).schemas(),
                        message.subgraph_name@,
                        message.new_sdl@,
                    )
                    &&& final(self).differs_in_schemas_only(*old(self))
                },
                (None, Received::Closed) => *final(self) == *old(self),
                _ => false,
            },
    {
        match next {
            Some(message) => {
                let subgraph_name = message.subgraph_name.clone();
                let (announcement, update) = self.handle_subgraph_message(message);
                Received::Handled { announcement, subgraph_name, update }
            },
            None => Received::Closed,
        }
    }
}

} // verus!
