//! The compose command as a whole: where its configuration comes from.
//!
//! [`Compose::run`] asks for a configuration, [`Compose::configured`] takes it up, and the phases
//! of [`Compose::exec`] follow.
use apollo_federation_types::config::SupergraphConfig;
use vstd::prelude::*;

use crate::compose::Compose;
use crate::exec::ComposeError;
use crate::options::{FileDescriptorType, GraphRef, ProfileOpt};
use crate::version::FederationVersion;

verus! {

/// A configuration is to be had from these sources.
#[derive(Debug, PartialEq, Eq)]
pub struct ConfigQuery {
    pub graph_ref: Option<GraphRef>,
    pub supergraph_yaml: Option<FileDescriptorType>,
    /// The version that the configuration is to ask for, if the user gave one.
    pub federation_version: Option<FederationVersion>,
    pub profile: ProfileOpt,
    /// Whether the configuration is read once, and not watched.
    pub create_static_config: bool,
}

impl Compose {
    /// Starts the command: it needs a configuration that is read once.
    pub fn run(&self) -> (r: ConfigQuery)
        ensures
            r.graph_ref == self.opts.supergraph_config_source.graph_ref,
            r.supergraph_yaml == self.opts.supergraph_config_source.supergraph_yaml,
            r.federation_version == self.opts.federation_version,
            r.profile == self.opts.plugin_opts.profile,
            r.create_static_config,
    {
        let opts = self.opts.clone();
        ConfigQuery {
            graph_ref: opts.supergraph_config_source.graph_ref,
            supergraph_yaml: opts.supergraph_config_source.supergraph_yaml,
            federation_version: opts.federation_version,
            profile: opts.plugin_opts.profile,
            create_static_config: true,
        }
    }

    /// Goes on when a configuration was looked for: there has to be one.
    pub fn configured<E>(&self, found: Result<Option<SupergraphConfig>, E>) -> (r: Result<
        SupergraphConfig,
        ComposeError<E>,
    >)
        ensures
            r == match found {
                Ok(Some(config)) => Ok::<SupergraphConfig, ComposeError<E>>(config),
                Ok(None) => Err(ComposeError::MissingConfig),
                Err(e) => Err(ComposeError::Outside(e)),
            },
    {
        match found {
            Ok(Some(config)) => Ok(config),
            Ok(None) => Err(ComposeError::MissingConfig),
            Err(e) => Err(ComposeError::Outside(e)),
        }
    }
}

} // verus!
