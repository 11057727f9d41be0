# rover_compose

The decisions behind two commands of a GraphQL tool, verified with Verus:

- `compose` composes a supergraph from its subgraphs with the `supergraph` binary. The library
  says which binary to install, what its configuration file holds, how to run it and what to make
  of its output.
- `dev` runs a router on a supergraph and composes it again whenever the schema of a subgraph
  changes. The library holds the state of such a session and says what to do next.

## Layout

- `src/` is the library. `compose`, `run`, `exec` and `resolving` are the compose command,
  `orchestrator` and `subgraphs` are a development session, and `dev` is the dev command.
  `version`, `extract`, `output`, `path`, `options` and `text` serve them.
- `src/outside.rs` holds every call into an outside crate, each with a contract that is believed
  and not proved.
- `src/laws/` holds what is true of several functions together.
- `tests/` runs the library with the outside crates.
- `app/` does what the library asks for: files, processes, the environment and the command line.
