//! Command-line settings and their precedence rules. Parsing the command
//! line itself is done by the application.

use vstd::prelude::*;

verus! {

#[verifier::external_type_specification]
pub struct ExLevelFilter(log::LevelFilter);

/// How much the application logs.
#[derive(Debug, Clone, Copy, PartialEq, Eq, Structural)]
pub enum LogLevel {
    /// Every message.
    Trace,
    /// Debug and above.
    Debug,
    /// Info and above (the default).
    Info,
    /// Warnings and errors.
    Warn,
    /// Errors only.
    Error,
    /// Nothing.
    Off,
}

impl LogLevel {
    /// The matching filter of the `log` crate.
    pub fn to_level_filter(self) -> (r: log::LevelFilter)
        ensures
            self == LogLevel::Trace ==> r == log::LevelFilter::Trace,
            self == LogLevel::Debug ==> r == log::LevelFilter::Debug,
            self == LogLevel::Info ==> r == log::LevelFilter::Info,
            self == LogLevel::Warn ==> r == log::LevelFilter::Warn,
            self == LogLevel::Error ==> r == log::LevelFilter::Error,
            self == LogLevel::Off ==> r == log::LevelFilter::Off,
    {
        match self {
            LogLevel::Trace => log::LevelFilter::Trace,
            LogLevel::Debug => log::LevelFilter::Debug,
            LogLevel::Info => log::LevelFilter::Info,
            LogLevel::Warn => log::LevelFilter::Warn,
            LogLevel::Error => log::LevelFilter::Error,
            LogLevel::Off => log::LevelFilter::Off,
        }
    }

    /// The filter string for the logger's environment.
    pub fn to_filter_str(self) -> (r: &'static str)
        ensures
            self == LogLevel::Trace ==> r@ == "trace"@,
            self == LogLevel::Debug ==> r@ == "debug"@,
            self == LogLevel::Info ==> r@ == "info"@,
            self == LogLevel::Warn ==> r@ == "warn"@,
            self == LogLevel::Error ==> r@ == "error"@,
            self == LogLevel::Off ==> r@ == "off"@,
    {
        match self {
            LogLevel::Trace => "trace",
            LogLevel::Debug => "debug",
            LogLevel::Info => "info",
            LogLevel::Warn => "warn",
            LogLevel::Error => "error",
            LogLevel::Off => "off",
        }
    }
}

/// The settings given on the command line.
#[derive(Debug, Clone)]
pub struct Cli {
    /// Path of the backend's socket.
    pub socket: Option<String>,
    /// Path of the configuration file.
    pub config: Option<String>,
    /// Requested log level.
    pub log_level: Option<LogLevel>,
    /// Write a default configuration file and exit.
    pub generate_config: bool,
    /// Model to use for queries.
    pub model: Option<String>,
    /// Same as `--log-level debug`.
    pub verbose: bool,
    /// Same as `--log-level error`.
    pub quiet: bool,
}

/// The log level in effect: quiet, then verbose, then the explicit level,
/// then info.
pub open spec fn effective_level(c: Cli) -> LogLevel {
    if c.quiet {
        LogLevel::Error
    } else if c.verbose {
        LogLevel::Debug
    } else {
        match c.log_level {
            Some(l) => l,
            None => LogLevel::Info,
        }
    }
}

impl Cli {
    /// The log level in effect: `--quiet` over `--verbose` over `--log-level`
    /// over the default, info.
    pub fn effective_log_level(&self) -> (r: LogLevel)
        ensures
            r == effective_level(*self),
    {
        if self.quiet {
            LogLevel::Error
        } else if self.verbose {
            LogLevel::Debug
        } else {
            match self.log_level {
                Some(l) => l,
                None => LogLevel::Info,
            }
        }
    }

    /// The configuration path given on the command line, if any.
    pub fn effective_config_path(&self) -> (r: Option<String>)
        ensures
            r == self.config,
    {
        self.config.clone()
    }

    /// The socket path: the command line's, else the environment's, else
    /// `<runtime dir>/openagent-terminal-test.sock` with `/tmp` when no
    /// runtime directory is set. The caller reads the environment.
    pub fn effective_socket_path(&self, from_env: Option<String>, runtime_dir: Option<String>) -> (r: String)
        ensures
            self.socket matches Some(s) ==> r == s,
            self.socket is None && from_env is Some ==> r == from_env->Some_0,
            self.socket is None && from_env is None ==> r@ == match runtime_dir {
                Some(d) => d@,
                None => "/tmp"@,
            } + "/openagent-terminal-test.sock"@,
    {
        if let Some(s) = &self.socket {
            return s.clone();
        }
        if let Some(e) = from_env {
            return e;
        }
        let mut out: Vec<char> = Vec::new();
        match &runtime_dir {
            Some(d) => crate::text::push_str_chars(&mut out, d.as_str()),
            None => crate::text::push_str_chars(&mut out, "/tmp"),
        }
        crate::text::push_str_chars(&mut out, "/openagent-terminal-test.sock");
        crate::text::string_of(out.as_slice())
    }

    /// Whether to write a default configuration file and exit.
    pub fn should_generate_config(&self) -> (r: bool)
        ensures
            r == self.generate_config,
    {
        self.generate_config
    }
}

} // verus!
