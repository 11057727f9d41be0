//! What holds throughout a development session.
use vstd::prelude::*;

use crate::orchestrator::{ComposeStage, Orchestrator, Startup, SubgraphUpdate};
use crate::subgraphs::{SubgraphSchema, SubgraphView};
use crate::version::{FederationVersion, FederationVersionView, VersionView};

verus! {

// ---- starting ----

/// A session is ready when the work of five stages is done, one after the other. Of what it was
/// started with, only the Federation version may be another then: the one that the environment
/// asks for, if it asks for one.
pub proof fn law_session_starts_in_five_steps<R>(states: Seq<Startup<R>>)
    requires
        states.len() == 6,
        states[0].stage is BindRouter,
        forall|i: int, j: int|
            0 <= i && j == i + 1 && j < states.len() ==> (#[trigger] states[i]).goes_on_to(
                #[trigger] states[j],
            ),
    ensures
        states[5].stage is Ready,
        forall|i: int| 0 <= i < 5 ==> !((#[trigger] states[i]).stage is Ready),
        states[5].orchestrator.differs_in_version_only(states[0].orchestrator),
        states[5].orchestrator.version() == match crate::orchestrator::version_from_env(
            states[0].version_override,
        ) {
            Some(version) => version,
            None => states[0].orchestrator.version(),
        },
{
    assert(states[0].goes_on_to(states[1]));
    assert(states[1].goes_on_to(states[2]));
    assert(states[2].goes_on_to(states[3]));
    assert(states[3].goes_on_to(states[4]));
    assert(states[4].goes_on_to(states[5]));
}

// ---- composing ----

/// What came of a composition, and whether the router was stopped for it.
pub struct Settled<E> {
    pub result: Result<(), E>,
    pub killed: bool,
}

/// What comes of a composition from a stage on, where `run`, `spawn` and `kill` come of composing,
/// of starting the router and of stopping it.
pub open spec fn settled<R, E>(
    orchestrator: Orchestrator<R>,
    stage: ComposeStage<E>,
    run: Result<(), E>,
    spawn: Result<(), E>,
    kill: Result<(), E>,
) -> Settled<E>
    decreases
            match stage {
                ComposeStage::RunComposer => 3int,
                ComposeStage::SpawnRouter => 2int,
                ComposeStage::KillRouter(_) => 1int,
                ComposeStage::Done(_) => 0int,
            },
{
    match stage {
        ComposeStage::RunComposer => settled(
            orchestrator,
            orchestrator.compose_step(stage, run),
            run,
            spawn,
            kill,
        ),
        ComposeStage::SpawnRouter => settled(
            orchestrator,
            orchestrator.compose_step(stage, spawn),
            run,
            spawn,
            kill,
        ),
        ComposeStage::KillRouter(_) => Settled {
            killed: true,
            ..settled(orchestrator, orchestrator.compose_step(stage, kill), run, spawn, kill)
        },
        ComposeStage::Done(result) => Settled { result, killed: false },
    }
}

/// A composition succeeds if and only if composing succeeds and the router, if there is one, is
/// started. Otherwise the error is that of composing or else of starting the router, whatever
/// comes of stopping it; and the router, if there is one, is stopped.
pub proof fn law_failed_composition_stops_the_router<R, E>(
    orchestrator: Orchestrator<R>,
    run: Result<(), E>,
    spawn: Result<(), E>,
    kill: Result<(), E>,
)
    ensures
        ({
            let end = settled(orchestrator, ComposeStage::RunComposer, run, spawn, kill);
            &&& end.result == match run {
                Ok(_) => if orchestrator.router_runner is Some {
                    spawn
                } else {
                    Ok(())
                },
                Err(e) => Err(e),
            }
            &&& end.killed <==> end.result is Err && orchestrator.router_runner is Some
        }),
{
    reveal_with_fuel(settled, 4);
    match spawn {
        Ok(done) => {
            assert(done == ());
        },
        Err(_) => {},
    }
}

// ---- taking up changes ----

/// The schemas when several subgraphs have new ones, taken up in order.
pub open spec fn with_schemas<R>(
    schemas: Map<Seq<char>, SubgraphView<R>>,
    updates: Seq<(Seq<char>, Seq<char>)>,
) -> Map<Seq<char>, SubgraphView<R>>
    decreases updates.len(),
{
    if updates.len() == 0 {
        schemas
    } else {
        let (name, sdl) = updates.last();
        crate::orchestrator::with_schema(with_schemas(schemas, updates.drop_last()), name, sdl)
    }
}

/// The schema that the last of some updates gives a subgraph, if one gives it one.
pub open spec fn last_schema(updates: Seq<(Seq<char>, Seq<char>)>, name: Seq<char>) -> Option<
    Seq<char>,
>
    decreases updates.len(),
{
    if updates.len() == 0 {
        None
    } else if updates.last().0 == name {
        Some(updates.last().1)
    } else {
        last_schema(updates.drop_last(), name)
    }
}

/// Throughout a session the subgraphs are those that it started with, and each has the schema
/// that it was given last. What else is known of a subgraph stays.
pub proof fn law_last_schema_counts<R>(
    schemas: Map<Seq<char>, SubgraphView<R>>,
    updates: Seq<(Seq<char>, Seq<char>)>,
)
    ensures
        with_schemas(schemas, updates).dom() == schemas.dom(),
        forall|name: Seq<char>| #[trigger]
            schemas.contains_key(name) ==> with_schemas(schemas, updates)[name] == (SubgraphView {
                sdl: match last_schema(updates, name) {
                    Some(sdl) => sdl,
                    None => schemas[name].sdl,
                },
                rest: schemas[name].rest,
            }),
    decreases updates.len(),
{
    if updates.len() > 0 {
        law_last_schema_counts(schemas, updates.drop_last());
        let before = with_schemas(schemas, updates.drop_last());
        assert(with_schemas(schemas, updates).dom() =~= schemas.dom());
        assert forall|name: Seq<char>| #[trigger] schemas.contains_key(name) implies with_schemas(
            schemas,
            updates,
        )[name] == (SubgraphView {
            sdl: match last_schema(updates, name) {
                Some(sdl) => sdl,
                None => schemas[name].sdl,
            },
            rest: schemas[name].rest,
        }) by {
            assert(before.contains_key(name));
        }
    }
}

/// A schema that is taken up a second time changes nothing and composes nothing.
pub proof fn law_repeated_update_is_unchanged<R>(
    schemas: Map<Seq<char>, SubgraphView<R>>,
    name: Seq<char>,
    sdl: Seq<char>,
    again: SubgraphUpdate,
)
    requires
        crate::orchestrator::is_update(
            crate::orchestrator::with_schema(schemas, name, sdl),
            name,
            sdl,
            again,
        ),
    ensures
        crate::orchestrator::with_schema(
            crate::orchestrator::with_schema(schemas, name, sdl),
            name,
            sdl,
        ) == crate::orchestrator::with_schema(schemas, name, sdl),
        !(again is Recompose),
        again is Unchanged <==> schemas.contains_key(name),
{
    let once = crate::orchestrator::with_schema(schemas, name, sdl);
    assert(crate::orchestrator::with_schema(once, name, sdl) =~= once);
}

/// The supergraph is composed again if and only if its schemas changed.
pub proof fn law_recomposed_when_changed<R>(
    schemas: Map<Seq<char>, SubgraphView<R>>,
    name: Seq<char>,
    sdl: Seq<char>,
    update: SubgraphUpdate,
)
    requires
        crate::orchestrator::is_update(schemas, name, sdl, update),
    ensures
        update is Recompose <==> crate::orchestrator::with_schema(schemas, name, sdl) != schemas,
{
    let after = crate::orchestrator::with_schema(schemas, name, sdl);
    if update is Recompose {
        assert(after[name] != schemas[name]);
    } else {
        assert(after =~= schemas);
    }
}

/// Where the environment asks for a version and it is offered, the session composes with exactly
/// that version: it is the one whose notation the environment holds.
pub proof fn law_env_version_is_its_text(text: Seq<char>, v: VersionView)
    requires
        crate::version::denotes(text, v),
    ensures
        match crate::version::requested_version(text) {
            Some(version) => {
                &&& crate::version::is_offered(v)
                &&& version.exact() == Some(v)
                &&& version.text() == seq!['='] + text
                &&& version.is_fed_two() <==> v.major == 2
            },
            None => !crate::version::is_offered(v),
        },
{
    crate::laws::notation::law_denoted_version(text, v);
}

// ---- what a stage does ----

/// The stages follow one another in a fixed order.
pub proof fn law_stages_in_order<R>(startup: Startup<R>, next: Startup<R>)
    requires
        startup.goes_on_to(next),
    ensures
        startup.stage is BindRouter ==> next.stage is CreateComposeRunner,
        startup.stage is CreateComposeRunner ==> next.stage is InstallRouter,
        startup.stage is InstallRouter ==> next.stage is StartConfigHandler,
        startup.stage is StartConfigHandler ==> next.stage is Compose,
        startup.stage is Compose ==> next.stage is Ready,
{
}

/// A stage changes nothing of a session but its Federation version.
pub proof fn law_stage_keeps_the_session<R>(startup: Startup<R>, next: Startup<R>)
    requires
        startup.goes_on_to(next),
    ensures
        next.raw_socket_name == startup.raw_socket_name,
        next.router_address == startup.router_address,
        next.version_override == startup.version_override,
        next.orchestrator.router_runner == startup.orchestrator.router_runner,
        next.orchestrator.compose_runner.supergraph_schema_path
            == startup.orchestrator.compose_runner.supergraph_schema_path,
        next.orchestrator.compose_runner.composer.supergraph_config.subgraphs
            == startup.orchestrator.compose_runner.composer.supergraph_config.subgraphs,
        !(startup.stage is BindRouter) ==> {
            &&& next.orchestrator.compose_runner.composer.supergraph_config.federation_version@
                == startup.orchestrator.compose_runner.composer.supergraph_config.federation_version@
            &&& next.version_error == startup.version_error
        },
{
}

/// Where the environment holds the notation of a version that is offered, the session that starts
/// composes with exactly that version, part by part. Where the version is not offered, the session
/// keeps the version of the supergraph and says why.
pub proof fn law_session_composes_with_the_version_of_the_environment<R>(
    startup: Startup<R>,
    next: Startup<R>,
    text: String,
    v: VersionView,
)
    requires
        startup.stage is BindRouter,
        startup.goes_on_to(next),
        startup.version_override == Some(text),
        crate::version::denotes(text@, v),
    ensures
        ({
            let held =
                next.orchestrator.compose_runner.composer.supergraph_config.federation_version;
            let before =
                startup.orchestrator.compose_runner.composer.supergraph_config.federation_version;
            &&& v.major == 0 && v.minor >= 36 ==> (held matches FederationVersion::ExactFedOne(w)
                && crate::laws::executable::is_version(w, v))
            &&& v.major == 2 && crate::version::is_offered(v) ==> (held
                matches FederationVersion::ExactFedTwo(w) && crate::laws::executable::is_version(
                w,
                v,
            ))
            &&& v.major == 2 && (v.minor > 0 || v.patch > 0 || v.pre.len() == 0) ==> (held
                matches FederationVersion::ExactFedTwo(w) && crate::laws::executable::is_version(
                w,
                v,
            ))
            &&& v.major == 1 || v.major > 2 || v.major == 0 && v.minor < 36
                || !crate::version::is_offered(v) ==> held@ == before@ && next.version_error
                == Some(crate::outside::federation_version_error(seq!['='] + text@))
            &&& crate::version::is_offered(v) ==> next.version_error is None
        }),
{
    crate::laws::notation::law_denoted_version(text@, v);
}

/// Where the environment asks for no version, or holds no notation of one, the session keeps the
/// version of the supergraph.
pub proof fn law_session_keeps_its_version_otherwise<R>(startup: Startup<R>, next: Startup<R>)
    requires
        startup.stage is BindRouter,
        startup.goes_on_to(next),
        startup.version_override matches Some(text) ==> forall|v: VersionView|
            !#[trigger] crate::version::denotes(text@, v),
    ensures
        next.orchestrator.compose_runner.composer.supergraph_config.federation_version@
            == startup.orchestrator.compose_runner.composer.supergraph_config.federation_version@,
        startup.version_override is None ==> next.version_error is None,
        startup.version_override matches Some(text) ==> next.version_error == Some(
            crate::outside::federation_version_error(seq!['='] + text@),
        ),
{
}

/// What the environment asks for is the exact version whose notation it holds, in its own line.
pub proof fn law_version_of_the_environment_is_exact(text: String, v: VersionView)
    requires
        crate::version::denotes(text@, v),
    ensures
        crate::version::is_offered(v) ==> crate::orchestrator::env_version_error(Some(text)) is None,
        crate::version::is_offered(v) && v.major == 0 ==> crate::orchestrator::version_from_env(
            Some(text),
        ) == Some(FederationVersionView::ExactFedOne(v)),
        crate::version::is_offered(v) && v.major == 2 ==> crate::orchestrator::version_from_env(
            Some(text),
        ) == Some(FederationVersionView::ExactFedTwo(v)),
        !crate::version::is_offered(v) ==> crate::orchestrator::version_from_env(Some(text)) is None
            && crate::orchestrator::env_version_error(Some(text)) == Some(
            crate::outside::federation_version_error(seq!['='] + text@),
        ),
{
    crate::laws::notation::law_denoted_version(text@, v);
}

// ---- what an update does ----

/// A new schema goes to the subgraph of its name. No other subgraph changes, nothing else that is
/// known of a subgraph does, and no subgraph comes or goes.
pub proof fn law_only_the_named_schema_changes<R>(
    schemas: Map<Seq<char>, SubgraphView<R>>,
    name: Seq<char>,
    sdl: Seq<char>,
)
    ensures
        ({
            let after = crate::orchestrator::with_schema(schemas, name, sdl);
            &&& after.dom() == schemas.dom()
            &&& schemas.contains_key(name) ==> after[name].sdl == sdl
            &&& forall|other: Seq<char>| #[trigger]
                schemas.contains_key(other) ==> after[other].rest == schemas[other].rest && (other
                    != name ==> after[other].sdl == schemas[other].sdl)
        }),
{
    assert(crate::orchestrator::with_schema(schemas, name, sdl).dom() =~= schemas.dom());
}

/// A schema of a subgraph that is not there is refused by name. Otherwise the supergraph is
/// composed if and only if the schema is not the one that is there.
pub proof fn law_update_is_told_by_the_schema<R>(
    schemas: Map<Seq<char>, SubgraphView<R>>,
    name: Seq<char>,
    sdl: Seq<char>,
    r: SubgraphUpdate,
)
    requires
        crate::orchestrator::is_update(schemas, name, sdl, r),
    ensures
        !schemas.dom().contains(name) ==> (r matches SubgraphUpdate::NotFound { message }
            && message@ == "subgraph with name '"@ + name + "' does not exist"@),
        schemas.dom().contains(name) && schemas[name].sdl == sdl ==> r is Unchanged,
        schemas.dom().contains(name) && schemas[name].sdl != sdl ==> r is Recompose,
{
}

/// An update changes the schemas of a session and nothing else.
pub proof fn law_update_keeps_the_session<R>(before: Orchestrator<R>, after: Orchestrator<R>)
    requires
        after.differs_in_schemas_only(before),
    ensures
        after.router_runner == before.router_runner,
        after.compose_runner.supergraph_schema_path
            == before.compose_runner.supergraph_schema_path,
        after.compose_runner.composer.supergraph_config.federation_version
            == before.compose_runner.composer.supergraph_config.federation_version,
{
}

/// What is said of a session is what it holds.
pub proof fn law_session_is_held_as_it_is<R>(
    orchestrator: Orchestrator<R>,
    entry: SubgraphSchema<R>,
)
    ensures
        orchestrator.schemas() == orchestrator.compose_runner.composer.supergraph_config.subgraphs@,
        orchestrator.version()
            == orchestrator.compose_runner.composer.supergraph_config.federation_version@,
        entry@.sdl == entry.sdl@,
        entry@.rest == entry.rest,
{
}

/// What the user is told names the subgraph or the address that it is about.
pub proof fn law_messages_name_their_subject(name: Seq<char>, address: Seq<char>)
    ensures
        crate::orchestrator::updating_text(name) == "updating the schema for the '"@ + name
            + "' subgraph in the session"@,
        crate::orchestrator::composed_text(name) == "successfully composed after updating the '"@
            + name + "' subgraph"@,
        crate::orchestrator::address_in_use_text(address) == "You cannot bind the router to '"@
            + address
            + "' because that address is already in use by another process on this machine."@,
        crate::orchestrator::address_in_use_suggestion(address)
            == "Try setting a different port for the router to bind to with the `--supergraph-port` argument, or shut down the process bound to '"@
            + address + "'."@,
{
}

// ---- one step of a composition ----

/// Each step of a composition follows on what came of the one before: composing, then starting the
/// router if there is one, and stopping it when either fails. The first error is the one that
/// counts.
pub proof fn law_steps_of_a_composition<R, E>(
    orchestrator: Orchestrator<R>,
    stage: ComposeStage<E>,
    reply: Result<(), E>,
)
    ensures
        ({
            let next = orchestrator.compose_step(stage, reply);
            let has_router = orchestrator.router_runner is Some;
            &&& stage is RunComposer && reply is Ok && has_router ==> next is SpawnRouter
            &&& stage is RunComposer && reply is Ok && !has_router ==> (next matches
                ComposeStage::Done(Ok(_)))
            &&& stage is SpawnRouter && reply is Ok ==> (next matches ComposeStage::Done(Ok(_)))
            &&& (stage is RunComposer || stage is SpawnRouter) && has_router ==> (reply matches Err(
                e,
            ) ==> (next matches ComposeStage::KillRouter(error) && error == e))
            &&& (stage is RunComposer || stage is SpawnRouter) && !has_router ==> (reply matches Err(
                e,
            ) ==> (next matches ComposeStage::Done(Err(error)) && error == e))
            &&& stage matches ComposeStage::KillRouter(e) ==> (next matches ComposeStage::Done(Err(
                error,
            )) && error == e)
            &&& stage matches ComposeStage::Done(result) ==> next == ComposeStage::Done(result)
        }),
{
}

} // verus!
