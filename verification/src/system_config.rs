//! The system configuration: how services are managed, and how much is
//! logged.

use vstd::prelude::*;

verus! {

/// The name of the file that holds the system configuration.
pub const SERVICE_CONFIG_FILE: &'static str = "system.toml";

/// What can go wrong with the service manager.
#[derive(Debug)]
pub enum SystemServiceError {
    ServiceCommandFailedWithCode { service_command: String, code: i32 },
    ServiceCommandFailedBySignal { service_command: String },
    ServiceCommandNotFound { service_command: String, path: String },
    ServiceManagerUnavailable { cmd: String, name: String },
    SystemConfigInvalidToml { path: String, reason: String },
    SystemConfigInvalidSyntax { reason: String, cmd: String, path: String },
}

/// The system configuration.
#[derive(Debug)]
pub struct SystemConfig {
    pub init: Option<InitConfig>,
    pub log: Option<LogConfig>,
}

/// How much is logged.
#[derive(Debug, Clone, Copy, PartialEq, Eq, Structural)]
pub struct LogConfig {
    pub is_debug: bool,
}

/// The commands of the service manager.
#[derive(Debug)]
pub struct InitConfig {
    pub name: String,
    pub is_available: Vec<String>,
    pub restart: Vec<String>,
    pub stop: Vec<String>,
    pub enable: Vec<String>,
    pub disable: Vec<String>,
    pub is_active: Vec<String>,
}

/// The words of a command.
pub open spec fn words(command: Seq<String>) -> Seq<Seq<char>> {
    Seq::new(command.len(), |i: int| command[i]@)
}

fn command2(a: &str, b: &str) -> (r: Vec<String>)
    ensures
        words(r@) == seq![a@, b@],
{
    let mut command: Vec<String> = Vec::new();
    command.push(String::from_str(a));
    command.push(String::from_str(b));
    assert(words(command@) =~= seq![a@, b@]);
    command
}

fn command3(a: &str, b: &str, c: &str) -> (r: Vec<String>)
    ensures
        words(r@) == seq![a@, b@, c@],
{
    let mut command: Vec<String> = Vec::new();
    command.push(String::from_str(a));
    command.push(String::from_str(b));
    command.push(String::from_str(c));
    assert(words(command@) =~= seq![a@, b@, c@]);
    command
}

impl Default for InitConfig {
    /// The commands of `systemd`, with `{}` in the place of the service.
    fn default() -> (r: Self)
        ensures
            r.name@ == "systemd"@,
            words(r.is_available@) == seq!["/bin/systemctl"@, "--version"@],
            words(r.restart@) == seq!["/bin/systemctl"@, "restart"@, "{}"@],
            words(r.stop@) == seq!["/bin/systemctl"@, "stop"@, "{}"@],
            words(r.enable@) == seq!["/bin/systemctl"@, "enable"@, "{}"@],
            words(r.disable@) == seq!["/bin/systemctl"@, "disable"@, "{}"@],
            words(r.is_active@) == seq!["/bin/systemctl"@, "is-active"@, "{}"@],
    {
        InitConfig {
            name: String::from_str("systemd"),
            is_available: command2("/bin/systemctl", "--version"),
            restart: command3("/bin/systemctl", "restart", "{}"),
            stop: command3("/bin/systemctl", "stop", "{}"),
            enable: command3("/bin/systemctl", "enable", "{}"),
            disable: command3("/bin/systemctl", "disable", "{}"),
            is_active: command3("/bin/systemctl", "is-active", "{}"),
        }
    }
}

impl Default for LogConfig {
    fn default() -> (r: Self)
        ensures
            r.is_debug,
    {
        LogConfig { is_debug: true }
    }
}

impl Default for SystemConfig {
    fn default() -> (r: Self)
        ensures
            r.init is None,
            r.log is None,
    {
        SystemConfig { init: None, log: None }
    }
}

/// How much a service logs.
#[derive(Debug, Clone, Copy, PartialEq, Eq, Structural)]
pub enum LogLevel {
    Trace,
    Info,
}

/// How much a service logs: everything where it is asked to debug or the
/// configuration says so, which it does where it says nothing.
pub fn log_level(debug: bool, log_config: Option<LogConfig>) -> (r: LogLevel)
    ensures
        r == if debug || log_config is None || log_config->0.is_debug {
            LogLevel::Trace
        } else {
            LogLevel::Info
        },
{
    let is_debug = match log_config {
        Some(config) => config.is_debug,
        None => true,
    };
    if debug || is_debug {
        LogLevel::Trace
    } else {
        LogLevel::Info
    }
}

impl SystemServiceError {
    /// The error that tells that the system configuration is no TOML.
    pub fn invalid_toml(path: &str, reason: &str) -> (r: SystemServiceError)
        ensures
            r matches SystemServiceError::SystemConfigInvalidToml { path: p, reason: why } && p@
                == path@ && why@ == reason@,
    {
        SystemServiceError::SystemConfigInvalidToml {
            path: String::from_str(path),
            reason: String::from_str(reason),
        }
    }
}

} // verus!
