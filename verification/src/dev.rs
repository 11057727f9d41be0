//! The dev command, which is the dev command for subgraphs under another name.
use vstd::prelude::*;

verus! {

/// The dev command. `O` is what the dev command for subgraphs takes as options.
#[derive(Debug)]
pub struct Dev<O> {
    pub opts: O,
}

/// The dev command for subgraphs.
#[derive(Debug)]
pub struct SubgraphDev<O> {
    pub opts: O,
}

/// A run of the dev command for subgraphs. `C` is the configuration of the Studio client.
#[derive(Debug)]
pub struct SubgraphDevRun<O, C> {
    pub command: SubgraphDev<O>,
    pub override_install_path: Option<String>,
    pub client_config: C,
}

impl<O: Clone> Clone for Dev<O> {
    fn clone(&self) -> (r: Self)
        ensures
            cloned(self.opts, r.opts),
    {
        Dev { opts: self.opts.clone() }
    }
}

impl<O: Clone> Dev<O> {
    /// Hands everything on to the dev command for subgraphs.
    pub fn run<C>(&self, override_install_path: Option<String>, client_config: C) -> (r:
        SubgraphDevRun<O, C>)
        ensures
            cloned(self.opts, r.command.opts),
            r.override_install_path == override_install_path,
            r.client_config == client_config,
    {
        SubgraphDevRun {
            command: SubgraphDev { opts: self.opts.clone() },
            override_install_path,
            client_config,
        }
    }
}

} // verus!
