//! The configuration of the download server.

use vstd::prelude::*;
use crate::config::{EndpointConfig, Globals, OnceConfig, ProgramPathConfig, TaskConfig};

verus! {

/// What the server itself needs to know.
#[derive(Debug)]
pub struct ServerConfig {
    /// Where the database is.
    pub database_url: String,
}

/// The configuration of the download server.
#[derive(Debug)]
pub struct Config {
    pub server: ServerConfig,
    pub dependency_paths: ProgramPathConfig,
    pub endpoint: EndpointConfig,
    pub task: TaskConfig,
}

impl Config {
    /// A copy of this configuration.
    pub fn duplicate(&self) -> (copy: Config)
        ensures
            copy == *self,
    {
        Config {
            server: ServerConfig { database_url: self.server.database_url.clone() },
            dependency_paths: self.dependency_paths.duplicate(),
            endpoint: self.endpoint.duplicate(),
            task: self.task,
        }
    }

    /// Sets the configuration of every part of the program from `parsed`,
    /// once: that of the providers, of the helpers and of the tasks, and
    /// then the program's own. Fails where any of them has been set before.
    pub fn init_parsed(parsed: Config, globals: &mut Globals<Config>) -> (done: Result<(), String>)
        ensures
            Globals::keeps_written(*old(globals), *final(globals)),
            old(globals).is_fresh() ==> done is Ok,
            done is Ok ==> old(globals).is_fresh() && final(globals).holds(
                parsed.endpoint,
                parsed.dependency_paths,
                parsed.task,
                parsed,
            ),
            done matches Err(e) ==> e@ == "Config already initialized"@,
    {
        let endpoint = parsed.endpoint.duplicate();
        let paths = parsed.dependency_paths.duplicate();
        let task = parsed.task;
        globals.init_all(endpoint, paths, task, parsed)
    }

    /// What the server itself needs to know.
    pub fn server(&self) -> (server: &ServerConfig)
        ensures
            *server == self.server,
    {
        &self.server
    }

    /// This configuration with the missing program paths looked up on the
    /// search path. Nothing else changes.
    pub fn resolve_paths(self) -> (resolved: Config)
        ensures
            ProgramPathConfig::keeps_configured(self.dependency_paths, resolved.dependency_paths),
            resolved.server == self.server,
            resolved.endpoint == self.endpoint,
            resolved.task == self.task,
    {
        let mut resolved = self;
        resolved.dependency_paths = resolved.dependency_paths.resolve_paths();
        resolved
    }

    /// The configuration that was set.
    pub fn global(cell: &OnceConfig<Config>) -> (config: &Config)
        requires
            cell.value() is Some,
        ensures
            *config == cell.value()->0,
    {
        cell.get()
    }
}

} // verus!
