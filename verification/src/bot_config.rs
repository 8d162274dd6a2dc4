//! The configuration of the chat bot.

use vstd::prelude::*;
use crate::config::{copy_text, EndpointConfig, Globals, OnceConfig, ProgramPathConfig, TaskConfig};

verus! {

/// What the bot itself needs to know.
#[derive(Debug)]
pub struct TelegramBotConfig {
    /// Where the chat service is reached.
    pub api_url: String,
    /// The token under which the bot speaks.
    pub bot_token: String,
    /// What the bot says about itself, where that is not the usual text.
    pub about: Option<String>,
    /// Where the person who runs the bot can be reached.
    pub owner_link: Option<String>,
}

impl TelegramBotConfig {
    /// A copy of this configuration.
    pub fn duplicate(&self) -> (copy: TelegramBotConfig)
        ensures
            copy == *self,
    {
        TelegramBotConfig {
            api_url: self.api_url.clone(),
            bot_token: self.bot_token.clone(),
            about: copy_text(&self.about),
            owner_link: copy_text(&self.owner_link),
        }
    }
}

/// The configuration of the chat bot.
#[derive(Debug)]
pub struct Config {
    pub bot: TelegramBotConfig,
    pub dependency_paths: ProgramPathConfig,
    pub endpoint: EndpointConfig,
    pub task: TaskConfig,
}

impl Config {
    /// A copy of this configuration.
    pub fn duplicate(&self) -> (copy: Config)
        ensures
            copy == *self,
    {
        Config {
            bot: self.bot.duplicate(),
            dependency_paths: self.dependency_paths.duplicate(),
            endpoint: self.endpoint.duplicate(),
            task: self.task,
        }
    }

    /// Sets the configuration of every part of the program from `parsed`,
    /// once: that of the providers, of the helpers and of the tasks, and
    /// then the program's own. Fails where any of them has been set before.
    pub fn init_parsed(parsed: Config, globals: &mut Globals<Config>) -> (done: Result<(), String>)
        ensures
            Globals::keeps_written(*old(globals), *final(globals)),
            old(globals).is_fresh() ==> done is Ok,
            done is Ok ==> old(globals).is_fresh() && final(globals).holds(
                parsed.endpoint,
                parsed.dependency_paths,
                parsed.task,
                parsed,
            ),
            done matches Err(e) ==> e@ == "Config already initialized"@,
    {
        let endpoint = parsed.endpoint.duplicate();
        let paths = parsed.dependency_paths.duplicate();
        let task = parsed.task;
        globals.init_all(endpoint, paths, task, parsed)
    }

    /// What the bot itself needs to know.
    pub fn bot(&self) -> (bot: &TelegramBotConfig)
        ensures
            *bot == self.bot,
    {
        &self.bot
    }

    /// This configuration with the missing program paths looked up on the
    /// search path. Nothing else changes.
    pub fn resolve_paths(self) -> (resolved: Config)
        ensures
            ProgramPathConfig::keeps_configured(self.dependency_paths, resolved.dependency_paths),
            resolved.bot == self.bot,
            resolved.endpoint == self.endpoint,
            resolved.task == self.task,
    {
        let mut resolved = self;
        resolved.dependency_paths = resolved.dependency_paths.resolve_paths();
        resolved
    }

    /// The configuration that was set.
    pub fn global(cell: &OnceConfig<Config>) -> (config: &Config)
        requires
            cell.value() is Some,
        ensures
            *config == cell.value()->0,
    {
        cell.get()
    }
}

} // verus!
