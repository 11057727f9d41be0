//! The compose command: what it was asked to do, and the plugin that it installs.
use vstd::prelude::*;

use crate::options::{
    FileDescriptorType, LicenseAccepter, PluginOpts, SupergraphComposeOpts, SupergraphConfigSource,
};
use crate::version::{FederationVersion, FederationVersionView};

verus! {

/// The compose command.
#[derive(Debug, PartialEq, Eq)]
pub struct Compose {
    pub opts: SupergraphComposeOpts,
}

/// A plugin that can be installed.
#[derive(Debug, PartialEq, Eq)]
pub enum Plugin {
    Supergraph(FederationVersion),
}

/// An installation of a plugin.
#[derive(Debug, PartialEq, Eq)]
pub struct Install {
    /// Whether to overwrite what is installed.
    pub force: bool,
    pub plugin: Option<Plugin>,
    pub elv2_license_accepter: LicenseAccepter,
}

/// What has to be done to have the `supergraph` binary: get the consent to the license, where
/// one is required, then install the plugin or find it installed.
#[derive(Debug, PartialEq, Eq)]
pub struct InstallRequest {
    pub required_license: Option<LicenseAccepter>,
    pub install: Install,
    pub override_install_path: Option<String>,
    pub skip_update: bool,
}

impl InstallRequest {
    /// Whether this asks for the binary of `version` with these options: an existing installation
    /// may serve, and the license is required for Federation 2 only.
    pub open spec fn asks_for(
        self,
        version: FederationVersionView,
        opts: PluginOpts,
        override_install_path: Option<String>,
    ) -> bool {
        &&& self.required_license == if version.is_fed_two() {
            Some(opts.elv2_license_accepter)
        } else {
            None
        }
        &&& !self.install.force
        &&& self.install.plugin matches Some(Plugin::Supergraph(v)) && v@ == version
        &&& self.install.elv2_license_accepter == opts.elv2_license_accepter
        &&& self.override_install_path == override_install_path
        &&& self.skip_update == opts.skip_update
    }
}

impl Compose {
    /// A command that composes, with the latest version of Federation 2, what stands in memory.
    pub fn new(compose_opts: PluginOpts) -> (r: Self)
        ensures
            r.opts.plugin_opts == compose_opts,
            r.opts.federation_version == Some(FederationVersion::LatestFedTwo),
            r.opts.supergraph_config_source.graph_ref is None,
            r.opts.supergraph_config_source.supergraph_yaml matches Some(FileDescriptorType::File(f))
                && f@ == "RAM"@,
    {
        Compose {
            opts: SupergraphComposeOpts {
                plugin_opts: compose_opts,
                federation_version: Some(FederationVersion::LatestFedTwo),
                supergraph_config_source: SupergraphConfigSource {
                    supergraph_yaml: Some(FileDescriptorType::File("RAM".to_owned())),
                    graph_ref: None,
                },
            },
        }
    }

    /// What has to be done to have the `supergraph` binary of a version.
    pub fn maybe_install_supergraph(
        &self,
        override_install_path: Option<String>,
        federation_version: FederationVersion,
    ) -> (r: InstallRequest)
        ensures
            r.asks_for(federation_version@, self.opts.plugin_opts, override_install_path),
    {
        let plugin_opts = &self.opts.plugin_opts;
        let required_license = if federation_version.is_fed_two() {
            Some(plugin_opts.elv2_license_accepter)
        } else {
            None
        };
        InstallRequest {
            required_license,
            install: Install {
                force: false,
                plugin: Some(Plugin::Supergraph(federation_version)),
                elv2_license_accepter: plugin_opts.elv2_license_accepter,
            },
            override_install_path,
            skip_update: plugin_opts.skip_update,
        }
    }
}

} // verus!
