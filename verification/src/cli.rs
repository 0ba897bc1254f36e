//! The command line of the service, once parsed: the arguments and what
//! the rest of the program asks of them.

use vstd::prelude::*;
use vstd::string::*;
use crate::text::{ends_with, has_suffix};

verus! {

/// The arguments of the service.
#[derive(Debug, PartialEq, Eq)]
pub struct Args {
    /// Turns all log categories up to debug.
    pub verbose: bool,
    /// The address and port that the web server listens on.
    pub web_server: String,
    /// Turns all log categories up to trace in the log file.
    pub enable_tracing_level_log_file: bool,
    /// The directory of the log files.
    pub log_path: Option<String>,
    /// The version of the web interface that is served without a prefix.
    pub default_api_version: u8,
    /// The address of the camera-discovery service.
    pub mcm_address: String,
    /// The path of the control script, which ends in `.lua`.
    pub autopilot_scripts_file: Option<String>,
    /// The path of the settings file.
    pub settings_file: String,
    /// Whether earlier settings are ignored.
    pub reset: bool,
    /// Where the autopilot is reached.
    pub mavlink_connection_string: String,
    /// The system id that this component uses on the link.
    pub mavlink_system_id: u8,
    /// The component id that this component uses on the link.
    pub mavlink_component_id: u8,
}

/// The holder of the parsed arguments.
#[derive(Debug, PartialEq, Eq)]
pub struct Manager {
    pub clap_matches: Args,
}

/// The holder of the given arguments.
pub fn init_with(args: Args) -> (m: Manager)
    ensures
        m.clap_matches == args,
{
    Manager { clap_matches: args }
}

/// The arguments.
pub fn args(m: &Manager) -> (a: &Args)
    ensures
        *a == m.clap_matches,
{
    &m.clap_matches
}

/// Whether the verbose flag was given.
pub fn is_verbose(m: &Manager) -> (r: bool)
    ensures
        r == m.clap_matches.verbose,
{
    m.clap_matches.verbose
}

/// Whether trace-level logging to the log file was asked for.
pub fn is_tracing(m: &Manager) -> (r: bool)
    ensures
        r == m.clap_matches.enable_tracing_level_log_file,
{
    m.clap_matches.enable_tracing_level_log_file
}

/// Whether earlier settings are to be ignored.
pub fn is_reset(m: &Manager) -> (r: bool)
    ensures
        r == m.clap_matches.reset,
{
    m.clap_matches.reset
}

/// The version of the web interface that is served without a prefix.
pub fn default_api_version(m: &Manager) -> (r: u8)
    ensures
        r == m.clap_matches.default_api_version,
{
    m.clap_matches.default_api_version
}

/// The system id that this component uses on the link.
pub fn mavlink_system_id(m: &Manager) -> (r: u8)
    ensures
        r == m.clap_matches.mavlink_system_id,
{
    m.clap_matches.mavlink_system_id
}

/// The component id that this component uses on the link.
pub fn mavlink_component_id(m: &Manager) -> (r: u8)
    ensures
        r == m.clap_matches.mavlink_component_id,
{
    m.clap_matches.mavlink_component_id
}

/// Whether a path can be the path of the control script: it ends in
/// `.lua`.
pub open spec fn is_script_path(path: Seq<char>) -> bool {
    has_suffix(path, ".lua"@)
}

/// The path of the control script as it was given, before any expansion:
/// the argument where there is one and it ends in `.lua`, and otherwise
/// nothing.
pub fn autopilot_scripts_file(m: &Manager) -> (r: Option<&str>)
    ensures
        match m.clap_matches.autopilot_scripts_file {
            Some(path) => if is_script_path(path@) {
                r matches Some(p) && p@ == path@
            } else {
                r is None
            },
            None => r is None,
        },
{
    match &m.clap_matches.autopilot_scripts_file {
        Some(path) => {
            if ends_with(path.as_str(), ".lua") {
                Some(path.as_str())
            } else {
                None
            }
        },
        None => None,
    }
}

} // verus!
