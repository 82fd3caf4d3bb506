//! The command-layer argument records and the decisions they carry; the
//! process spawning, file reads and terminal output around them are the
//! caller's job.
use crate::project::CreateProjectArgs;
use crate::project_config::ProjectConfig;
use vstd::prelude::*;
use vstd::string::*;

verus! {

/// The scaffold command's arguments: its one subcommand, when given.
pub struct CreateArgs {
    pub command: Option<CreateProjectArgs>,
}

/// The export command's arguments: its one subcommand, when given.
pub struct ExportArgs {
    pub command: Option<ExportConfigArgs>,
}

/// Whether the export command prints the configuration instead of
/// writing it.
pub struct ExportConfigArgs {
    pub show: bool,
}

/// The development-server command's arguments.
pub struct StartArgs {
    pub script: Option<String>,
    pub port: Option<i32>,
}

/// The bundler script a command runs: the given one, or the installed
/// default.
pub fn bundler_script(script: &Option<String>) -> (r: String)
    ensures
        match script {
            Some(s) => r@ == s@,
            None => r@ == "node_modules/lyrn/tools/webpack.js"@,
        },
{
    match script {
        Some(s) => s.clone(),
        None => "node_modules/lyrn/tools/webpack.js".to_owned(),
    }
}

impl StartArgs {
    /// Apply these arguments to a loaded configuration: a given port
    /// overrides the configured one, nothing else changes.
    pub fn apply(&self, config: &mut ProjectConfig)
        ensures
            final(config)@.app == old(config)@.app,
            final(config)@.prod == old(config)@.prod,
            match self.port {
                Some(p) => final(config)@.dev == crate::project_config::DevCfgV {
                    port: p as int,
                    ..old(config)@.dev
                },
                None => final(config)@.dev == old(config)@.dev,
            },
    {
        match self.port {
            Some(p) => {
                config.dev.port = p;
            },
            None => {},
        }
    }
}

} // verus!
