//! What is installed, and what the configuration says that the binary reads.
use apollo_federation_types::config::SupergraphConfig;
use vstd::prelude::*;

use crate::compose::{InstallRequest, Plugin};
use crate::exec::{ComposeError, Installing, WritingConfig};
use crate::options::PluginOpts;
use crate::outside::{ConfigFault, SubgraphEntry};
use crate::resolving::{InstallingVersion, OutputTarget, SavingConfig};
use crate::version::{FederationVersionView, VersionView};

verus! {

/// What is installed is the binary of the version that is asked for, where an installation that is
/// there may serve. Consent to the license is required for Federation 2 and for nothing else.
pub proof fn law_installation_is_of_the_version(
    request: InstallRequest,
    version: FederationVersionView,
    opts: PluginOpts,
    override_install_path: Option<String>,
)
    requires
        request.asks_for(version, opts, override_install_path),
    ensures
        request.install.plugin matches Some(Plugin::Supergraph(v)) && v@ == version,
        request.install.force == false,
        request.install.elv2_license_accepter.elv2_license_accepted
            == opts.elv2_license_accepter.elv2_license_accepted,
        request.override_install_path == override_install_path,
        request.skip_update == opts.skip_update,
        version is LatestFedOne || version is ExactFedOne ==> request.required_license is None,
        version is LatestFedTwo || version is ExactFedTwo ==> (request.required_license matches Some(
            license,
        ) && license.elv2_license_accepted == opts.elv2_license_accepter.elv2_license_accepted),
{
}

/// The configuration that the binary reads asks for the latest version of a major line, the one
/// that the installation is of, and its subgraphs are all there and unchanged.
pub proof fn law_binary_is_told_its_own_line(
    installing: Installing,
    before: SupergraphConfig,
    after: SupergraphConfig,
)
    requires
        installing.configures(before, after),
    ensures
        crate::outside::config_version(after) matches Some(v) && {
            &&& v.exact() is None
            &&& v.is_fed_two() == installing.federation_version@.is_fed_two()
            &&& v is LatestFedOne <==> installing.federation_version@ is LatestFedOne
                || installing.federation_version@ is ExactFedOne
            &&& v is LatestFedTwo <==> installing.federation_version@ is LatestFedTwo
                || installing.federation_version@ is ExactFedTwo
        },
        crate::outside::config_subgraphs(after).dom() == crate::outside::config_subgraphs(
            before,
        ).dom(),
        forall|name: Seq<char>| #[trigger]
            crate::outside::config_subgraphs(before).contains_key(name)
                ==> crate::outside::config_subgraphs(after)[name].routing_url
                == crate::outside::config_subgraphs(before)[name].routing_url
                && crate::outside::config_subgraphs(after)[name].schema
                == crate::outside::config_subgraphs(before)[name].schema,
{
}

/// Whether a subgraph has no routing URL, or its schema is not in the configuration.
pub open spec fn lacks_something(subgraphs: Map<Seq<char>, SubgraphEntry>, name: Seq<char>) -> bool {
    subgraphs.contains_key(name) && (subgraphs[name].routing_url is None || !(
    subgraphs[name].schema is Sdl))
}

/// The file that the binary reads is the configuration as the binary is to have it: written for
/// the major line of the installation, and with all the subgraphs, which are counted.
pub proof fn law_file_holds_the_configuration<E>(
    installing: Installing,
    exe: String,
    before: SupergraphConfig,
    after: SupergraphConfig,
    r: Result<WritingConfig, ComposeError<E>>,
)
    requires
        installing.configures(before, after),
        installing.leads_to(exe, crate::outside::config_subgraphs(before), r),
    ensures
        ({
            let subgraphs = crate::outside::config_subgraphs(before);
            let yaml = crate::outside::config_yaml(
                crate::outside::config_subgraphs(after),
                crate::outside::config_version(after),
            );
            &&& forall|name: Seq<char>| #[trigger]
                lacks_something(subgraphs, name) ==> (r matches Err(
                    ComposeError::Config(ConfigFault::SubgraphsNotResolved { subgraph_names }),
                ) && subgraph_names@ == crate::outside::unresolved_names(subgraphs))
            &&& subgraphs.dom().is_empty() ==> (r matches Err(
                ComposeError::Config(ConfigFault::NoSubgraphsFound),
            ))
            &&& !subgraphs.dom().is_empty() && (forall|name: Seq<char>|
                !#[trigger] lacks_something(subgraphs, name)) ==> match yaml {
                Ok(text) => r matches Ok(writing) && {
                    &&& writing.yaml@ == text
                    &&& writing.exe@ == exe@
                    &&& writing.num_subgraphs == subgraphs.dom().len()
                    &&& writing.output_file == installing.output_file
                },
                Err(e) => r matches Err(ComposeError::Yaml(error)) && error == e,
            }
        }),
{
    let subgraphs = crate::outside::config_subgraphs(before);
    if subgraphs.dom().is_empty() {
        assert(subgraphs.dom() =~= Set::<Seq<char>>::empty());
        assert(subgraphs =~= Map::<Seq<char>, SubgraphEntry>::empty());
    }
    if exists|name: Seq<char>| #[trigger] lacks_something(subgraphs, name) {
        let name = choose|name: Seq<char>| #[trigger] lacks_something(subgraphs, name);
        assert(subgraphs.contains_key(name));
        assert(!crate::outside::is_resolved(subgraphs));
    } else {
        assert forall|name: Seq<char>| #[trigger] subgraphs.contains_key(name) implies subgraphs[name].routing_url
            is Some && subgraphs[name].schema is Sdl by {
            assert(!lacks_something(subgraphs, name));
        }
    }
}

/// A configuration in which no subgraph is introspected with request headers is written in a fixed
/// order.
pub proof fn law_order_is_fixed_without_headers(subgraphs: Map<Seq<char>, SubgraphEntry>)
    requires
        forall|name: Seq<char>| #[trigger]
            subgraphs.contains_key(name) ==> (subgraphs[name].schema is SubgraphIntrospection
                ==> subgraphs[name].schema->introspection_headers is None),
    ensures
        crate::outside::has_fixed_order(subgraphs),
{
}

/// A version that the user gives is the version that is installed, whatever the configuration asks
/// for. The configuration decides only where the user gives none.
pub proof fn law_given_version_is_installed(
    saving: SavingConfig,
    config_path: String,
    installing: InstallingVersion,
)
    requires
        saving.leads_to(config_path, installing),
    ensures
        saving.job.opts.federation_version matches Some(given) ==> installing.federation_version@
            == given@,
        saving.job.opts.federation_version is None ==> installing.federation_version@
            == saving.config_version@,
{
}

/// Whether a version can be installed rests on the version that the user gives, and on that of the
/// configuration only where the user gives none: it has to be an exact one.
pub proof fn law_version_to_install_is_exact(saving: SavingConfig)
    ensures
        saving.job.opts.federation_version matches Some(given) ==> (saving.version().exact() is None
            <==> given@ is LatestFedOne || given@ is LatestFedTwo),
        saving.job.opts.federation_version is None ==> (saving.version().exact() is None
            <==> saving.config_version@ is LatestFedOne || saving.config_version@
            is LatestFedTwo),
{
}

/// The binary is installed with the options that the user gave and is to be run on the
/// configuration. It writes the file that the user asked for from version 2.9 on; before that the
/// user is warned.
pub proof fn law_installation_is_as_asked(
    saving: SavingConfig,
    config_path: String,
    installing: InstallingVersion,
    v: VersionView,
)
    requires
        saving.leads_to(config_path, installing),
        crate::laws::composition::is_exactly(installing.federation_version@, v),
    ensures
        installing.config_path@ == config_path@,
        installing.override_install_path == saving.job.override_install_path,
        installing.skip_update == saving.job.opts.plugin_opts.skip_update,
        installing.elv2_license_accepter.elv2_license_accepted
            == saving.job.opts.plugin_opts.elv2_license_accepter.elv2_license_accepted,
        match saving.job.output_file {
            Some(asked) if v.major > 2 || v.major == 2 && v.minor > 8 => {
                &&& installing.output_target matches OutputTarget::File(file) && file@ == asked@
                &&& installing.warning is None
            },
            Some(_) => {
                &&& installing.output_target is Stdout
                &&& installing.warning matches Some(warning)
                    && crate::laws::composition::is_upgrade_warning(warning@, v)
            },
            None => installing.output_target is Stdout && installing.warning is None,
        },
{
    crate::laws::composition::law_file_is_kept_from_2_9_on(
        installing.federation_version@,
        v,
        crate::text::optional(saving.job.output_file),
    );
}

} // verus!
