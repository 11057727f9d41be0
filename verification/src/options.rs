//! The options of the compose command.
use vstd::prelude::*;

use crate::version::FederationVersion;

verus! {

/// Where a configuration file is read from.
#[derive(Debug, PartialEq, Eq)]
pub enum FileDescriptorType {
    Stdin,
    /// The file at this path.
    File(String),
}

impl Clone for FileDescriptorType {
    fn clone(&self) -> (r: Self)
        ensures
            r == *self,
    {
        match self {
            FileDescriptorType::Stdin => FileDescriptorType::Stdin,
            FileDescriptorType::File(path) => FileDescriptorType::File(path.clone()),
        }
    }
}

/// A reference to a variant of a graph in Apollo Studio, as it is written on the command line.
#[derive(Debug, PartialEq, Eq)]
pub struct GraphRef {
    pub text: String,
}

impl Clone for GraphRef {
    fn clone(&self) -> (r: Self)
        ensures
            r == *self,
    {
        GraphRef { text: self.text.clone() }
    }
}

/// The profile whose credentials are used.
#[derive(Debug, PartialEq, Eq)]
pub struct ProfileOpt {
    pub profile_name: String,
}

impl Clone for ProfileOpt {
    fn clone(&self) -> (r: Self)
        ensures
            r == *self,
    {
        ProfileOpt { profile_name: self.profile_name.clone() }
    }
}

/// What the user said of the ELv2 license.
#[derive(Debug, Clone, Copy, PartialEq, Eq)]
pub struct LicenseAccepter {
    pub elv2_license_accepted: Option<bool>,
}

/// The options that concern the plugins that a command installs and runs.
#[derive(Debug, PartialEq, Eq)]
pub struct PluginOpts {
    pub profile: ProfileOpt,
    pub elv2_license_accepter: LicenseAccepter,
    /// Whether to use an installed plugin as it is.
    pub skip_update: bool,
}

impl Clone for PluginOpts {
    fn clone(&self) -> (r: Self)
        ensures
            r == *self,
    {
        PluginOpts {
            profile: self.profile.clone(),
            elv2_license_accepter: self.elv2_license_accepter,
            skip_update: self.skip_update,
        }
    }
}

/// Where the configuration of a supergraph comes from.
#[derive(Debug, PartialEq, Eq)]
pub struct SupergraphConfigSource {
    /// The configuration file, if one is given.
    pub supergraph_yaml: Option<FileDescriptorType>,
    /// The graph variant whose subgraphs the supergraph starts from, if one is given. What the
    /// configuration file says takes precedence over it.
    pub graph_ref: Option<GraphRef>,
}

impl Clone for SupergraphConfigSource {
    fn clone(&self) -> (r: Self)
        ensures
            r == *self,
    {
        SupergraphConfigSource {
            supergraph_yaml: match &self.supergraph_yaml {
                Some(file) => Some(file.clone()),
                None => None,
            },
            graph_ref: match &self.graph_ref {
                Some(graph_ref) => Some(graph_ref.clone()),
                None => None,
            },
        }
    }
}

impl SupergraphConfigSource {
    /// The configuration file, if one is given.
    pub fn supergraph_yaml(&self) -> (r: &Option<FileDescriptorType>)
        ensures
            *r == self.supergraph_yaml,
    {
        &self.supergraph_yaml
    }

    /// The graph variant that the supergraph starts from, if one is given.
    pub fn graph_ref(&self) -> (r: &Option<GraphRef>)
        ensures
            *r == self.graph_ref,
    {
        &self.graph_ref
    }
}

/// The options of the compose command.
#[derive(Debug, PartialEq, Eq)]
pub struct SupergraphComposeOpts {
    pub plugin_opts: PluginOpts,
    pub supergraph_config_source: SupergraphConfigSource,
    /// The version of Federation to compose with. If none is given, the configuration of the
    /// supergraph decides.
    pub federation_version: Option<FederationVersion>,
}

impl Clone for SupergraphComposeOpts {
    fn clone(&self) -> (r: Self)
        ensures
            r == *self,
    {
        SupergraphComposeOpts {
            plugin_opts: self.plugin_opts.clone(),
            supergraph_config_source: self.supergraph_config_source.clone(),
            federation_version: match &self.federation_version {
                Some(version) => Some(version.clone()),
                None => None,
            },
        }
    }
}

impl SupergraphComposeOpts {
    pub fn plugin_opts(&self) -> (r: &PluginOpts)
        ensures
            *r == self.plugin_opts,
    {
        &self.plugin_opts
    }

    pub fn supergraph_config_source(&self) -> (r: &SupergraphConfigSource)
        ensures
            *r == self.supergraph_config_source,
    {
        &self.supergraph_config_source
    }

    pub fn federation_version(&self) -> (r: &Option<FederationVersion>)
        ensures
            *r == self.federation_version,
    {
        &self.federation_version
    }
}

} // verus!
