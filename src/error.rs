//! The application's error taxonomy, with remediation text, and the retry
//! policy.

use crate::ipc::error::io_error_text;
use crate::text::{decimal, push_decimal, push_str_chars, string_of};
use vstd::prelude::*;

verus! {

/// An error as the user sees it.
#[derive(Debug)]
pub enum TerminalError {
    /// Failed to connect to the backend; `source` is the text of the I/O error.
    BackendConnectionError { path: String, source: String },
    /// The backend went away.
    BackendDisconnected(String),
    /// The handshake failed.
    InitializationError(String),
    /// A query failed.
    AgentQueryError(String),
    /// A tool failed.
    ToolExecutionError { tool: String, reason: String },
    /// The configuration file is unusable.
    ConfigError(String),
    /// The wire protocol was violated.
    ProtocolError(String),
    /// No response within the bound.
    Timeout { seconds: u64 },
    /// A file-system operation failed; the text of the I/O error.
    IoError(String),
    /// Anything else, as its own message.
    Other(String),
}

impl TerminalError {
    /// The full message, with what the user can do about it.
    pub open spec fn text(&self) -> Seq<char> {
        match self {
            TerminalError::BackendConnectionError { path, source } => "Failed to connect to backend at "@ + path@ + "\n\nPossible solutions:\n1. Make sure the Python backend is running:\n   cd backend && python -m openagent_terminal.bridge\n2. Check if the socket path is correct:\n   ls -la "@ + path@ + "\n3. Try setting a custom socket path:\n   export OPENAGENT_SOCKET=/path/to/socket.sock\n\nError details: "@ + source@,
            TerminalError::BackendDisconnected(s) => "Backend disconnected unexpectedly\n\nThis usually means the Python backend crashed or was terminated.\nCheck the backend logs for error messages.\n\nError details: "@ + s@,
            TerminalError::InitializationError(s) => "Failed to initialize connection with backend\n\nThe backend responded but initialization failed.\nThis might indicate a version mismatch or protocol error.\n\nError details: "@ + s@,
            TerminalError::AgentQueryError(s) => "Agent query failed: "@ + s@ + "\n\nThe AI agent encountered an error processing your query.\nThis could be due to:\n- Invalid query format\n- Backend processing error\n- Model unavailable\n\nTry rephrasing your query or check backend logs."@,
            TerminalError::ToolExecutionError { tool, reason } => "Tool execution failed: "@ + tool@ + "\n\nThe tool '"@ + tool@ + "' failed to execute.\nReason: "@ + reason@ + "\n\nThis could be due to:\n- Invalid parameters\n- Insufficient permissions\n- File not found\n- Path safety restrictions\n\nCheck the tool parameters and try again."@,
            TerminalError::ConfigError(s) => "Configuration error: "@ + s@ + "\n\nThere was a problem with your configuration file.\nLocation: ~/.config/openagent-terminal/config.toml\n\nPossible solutions:\n1. Check the config file syntax\n2. Remove the config file to use defaults\n3. Copy config.example.toml as a template"@,
            TerminalError::ProtocolError(s) => "IPC protocol error: "@ + s@ + "\n\nThere was a problem with the communication protocol.\nThis might indicate:\n- Version mismatch between frontend and backend\n- Corrupted message\n- Protocol violation\n\nTry restarting both frontend and backend."@,
            TerminalError::Timeout { seconds } => "Request timed out after "@ + decimal(*seconds as nat) + " seconds\n\nThe backend took too long to respond.\nThis could mean:\n- The backend is busy processing\n- The query is too complex\n- The backend is unresponsive\n\nTry a simpler query or restart the backend."@,
            TerminalError::IoError(s) => "IO error: "@ + s@ + "\n\nA file system operation failed.\nCheck permissions and disk space."@,
            TerminalError::Other(s) => s@,
        }
    }

    /// The one-line summary of this error.
    pub open spec fn summary(&self) -> Seq<char> {
        match self {
            TerminalError::BackendConnectionError { .. } => "Backend connection failed"@,
            TerminalError::BackendDisconnected(_) => "Backend disconnected"@,
            TerminalError::InitializationError(_) => "Initialization failed"@,
            TerminalError::AgentQueryError(_) => "Agent query failed"@,
            TerminalError::ToolExecutionError { tool, .. } => "Tool '"@ + tool@ + "' failed"@,
            TerminalError::ConfigError(_) => "Configuration error"@,
            TerminalError::ProtocolError(_) => "Protocol error"@,
            TerminalError::Timeout { seconds } => "Timeout after "@ + decimal(*seconds as nat) + "s"@,
            TerminalError::IoError(_) => "IO error"@,
            TerminalError::Other(msg) => msg@,
        }
    }

    /// A connection error for `path`, keeping the text of the I/O error.
    pub fn backend_connection(path: &str, source: std::io::Error) -> (r: TerminalError)
        ensures
            r matches TerminalError::BackendConnectionError { path: p, .. } && p@ == path@,
    {
        TerminalError::BackendConnectionError {
            path: path.to_owned(),
            source: io_error_text(&source),
        }
    }

    /// A tool failure.
    pub fn tool_execution(tool: &str, reason: &str) -> (r: TerminalError)
        ensures
            r matches TerminalError::ToolExecutionError { tool: t, reason: m } && t@ == tool@ && m@ == reason@,
    {
        TerminalError::ToolExecutionError {
            tool: tool.to_owned(),
            reason: reason.to_owned(),
        }
    }

    /// A timeout after `seconds`.
    pub fn timeout(seconds: u64) -> (r: TerminalError)
        ensures
            r == (TerminalError::Timeout { seconds }),
    {
        TerminalError::Timeout { seconds }
    }

    /// Whether the backend could not be reached or went away.
    pub fn is_connection_error(&self) -> (r: bool)
        ensures
            r == (self is BackendConnectionError || self is BackendDisconnected),
    {
        match self {
            TerminalError::BackendConnectionError { .. } => true,
            TerminalError::BackendDisconnected(_) => true,
            _ => false,
        }
    }

    /// Whether trying again may help.
    pub fn is_recoverable(&self) -> (r: bool)
        ensures
            r == (self is BackendConnectionError || self is Timeout || self is AgentQueryError),
    {
        match self {
            TerminalError::BackendConnectionError { .. } => true,
            TerminalError::Timeout { .. } => true,
            TerminalError::AgentQueryError(_) => true,
            _ => false,
        }
    }

    /// The one-line summary of this error.
    pub fn short_message(&self) -> (r: String)
        ensures
            r@ == self.summary(),
    {
        let mut out: Vec<char> = Vec::new();
        match self {
            TerminalError::BackendConnectionError { .. } => push_str_chars(&mut out, "Backend connection failed"),
            TerminalError::BackendDisconnected(_) => push_str_chars(&mut out, "Backend disconnected"),
            TerminalError::InitializationError(_) => push_str_chars(&mut out, "Initialization failed"),
            TerminalError::AgentQueryError(_) => push_str_chars(&mut out, "Agent query failed"),
            TerminalError::ToolExecutionError { tool, .. } => {
                push_str_chars(&mut out, "Tool '");
                push_str_chars(&mut out, tool.as_str());
                push_str_chars(&mut out, "' failed");
            },
            TerminalError::ConfigError(_) => push_str_chars(&mut out, "Configuration error"),
            TerminalError::ProtocolError(_) => push_str_chars(&mut out, "Protocol error"),
            TerminalError::Timeout { seconds } => {
                push_str_chars(&mut out, "Timeout after ");
                push_decimal(*seconds, &mut out);
                push_str_chars(&mut out, "s");
            },
            TerminalError::IoError(_) => push_str_chars(&mut out, "IO error"),
            TerminalError::Other(msg) => push_str_chars(&mut out, msg.as_str()),
        }
        assert(out@ =~= self.summary());
        string_of(out.as_slice())
    }

    /// The full message, with what the user can do about it.
    pub fn to_string(&self) -> (r: String)
        ensures
            r@ == self.text(),
    {
        let mut out: Vec<char> = Vec::new();
        match self {
            TerminalError::BackendConnectionError { path, source } => {
                push_str_chars(&mut out, "Failed to connect to backend at ");
                push_str_chars(&mut out, path.as_str());
                push_str_chars(&mut out, "\n\nPossible solutions:\n1. Make sure the Python backend is running:\n   cd backend && python -m openagent_terminal.bridge\n2. Check if the socket path is correct:\n   ls -la ");
                push_str_chars(&mut out, path.as_str());
                push_str_chars(&mut out, "\n3. Try setting a custom socket path:\n   export OPENAGENT_SOCKET=/path/to/socket.sock\n\nError details: ");
                push_str_chars(&mut out, source.as_str());
            },
            TerminalError::BackendDisconnected(s) => {
                push_str_chars(&mut out, "Backend disconnected unexpectedly\n\nThis usually means the Python backend crashed or was terminated.\nCheck the backend logs for error messages.\n\nError details: ");
                push_str_chars(&mut out, s.as_str());
            },
            TerminalError::InitializationError(s) => {
                push_str_chars(&mut out, "Failed to initialize connection with backend\n\nThe backend responded but initialization failed.\nThis might indicate a version mismatch or protocol error.\n\nError details: ");
                push_str_chars(&mut out, s.as_str());
            },
            TerminalError::AgentQueryError(s) => {
                push_str_chars(&mut out, "Agent query failed: ");
                push_str_chars(&mut out, s.as_str());
                push_str_chars(&mut out, "\n\nThe AI agent encountered an error processing your query.\nThis could be due to:\n- Invalid query format\n- Backend processing error\n- Model unavailable\n\nTry rephrasing your query or check backend logs.");
            },
            TerminalError::ToolExecutionError { tool, reason } => {
                push_str_chars(&mut out, "Tool execution failed: ");
                push_str_chars(&mut out, tool.as_str());
                push_str_chars(&mut out, "\n\nThe tool '");
                push_str_chars(&mut out, tool.as_str());
                push_str_chars(&mut out, "' failed to execute.\nReason: ");
                push_str_chars(&mut out, reason.as_str());
                push_str_chars(&mut out, "\n\nThis could be due to:\n- Invalid parameters\n- Insufficient permissions\n- File not found\n- Path safety restrictions\n\nCheck the tool parameters and try again.");
            },
            TerminalError::ConfigError(s) => {
                push_str_chars(&mut out, "Configuration error: ");
                push_str_chars(&mut out, s.as_str());
                push_str_chars(&mut out, "\n\nThere was a problem with your configuration file.\nLocation: ~/.config/openagent-terminal/config.toml\n\nPossible solutions:\n1. Check the config file syntax\n2. Remove the config file to use defaults\n3. Copy config.example.toml as a template");
            },
            TerminalError::ProtocolError(s) => {
                push_str_chars(&mut out, "IPC protocol error: ");
                push_str_chars(&mut out, s.as_str());
                push_str_chars(&mut out, "\n\nThere was a problem with the communication protocol.\nThis might indicate:\n- Version mismatch between frontend and backend\n- Corrupted message\n- Protocol violation\n\nTry restarting both frontend and backend.");
            },
            TerminalError::Timeout { seconds } => {
                push_str_chars(&mut out, "Request timed out after ");
                push_decimal(*seconds, &mut out);
                push_str_chars(&mut out, " seconds\n\nThe backend took too long to respond.\nThis could mean:\n- The backend is busy processing\n- The query is too complex\n- The backend is unresponsive\n\nTry a simpler query or restart the backend.");
            },
            TerminalError::IoError(s) => {
                push_str_chars(&mut out, "IO error: ");
                push_str_chars(&mut out, s.as_str());
                push_str_chars(&mut out, "\n\nA file system operation failed.\nCheck permissions and disk space.");
            },
            TerminalError::Other(s) => {
                push_str_chars(&mut out, s.as_str());
            },
        }
        assert(out@ =~= self.text());
        string_of(out.as_slice())
    }
}

impl From<std::io::Error> for TerminalError {
    /// Keeps the text that the I/O error displays.
    fn from(e: std::io::Error) -> (r: TerminalError)
        ensures
            r is IoError,
    {
        TerminalError::IoError(io_error_text(&e))
    }
}

impl vstd::std_specs::convert::FromSpecImpl<std::io::Error> for TerminalError {
    open spec fn obeys_from_spec() -> bool {
        false
    }

    /// An I/O error; the text it keeps is not modelled.
    open spec fn from_spec(e: std::io::Error) -> TerminalError {
        TerminalError::IoError(vstd::pervasive::arbitrary())
    }
}

/// How an operation is retried. The growth factor of the delay is held in
/// percent (150 stands for 1.5).
#[derive(Debug, Clone, Copy, PartialEq, Eq, Structural)]
pub struct RetryConfig {
    /// Maximum number of attempts.
    pub max_attempts: u32,
    /// Delay before the first retry, in milliseconds.
    pub initial_delay_ms: u64,
    /// Ceiling of any delay, in milliseconds.
    pub max_delay_ms: u64,
    /// Factor between consecutive delays, in percent.
    pub backoff_percent: u64,
}

/// The uncapped delay of attempt `k`: the initial delay, multiplied by the
/// factor once per attempt (each product rounded down to whole milliseconds).
pub open spec fn backoff(initial: nat, percent: nat, k: nat) -> nat
    decreases k,
{
    if k == 0 {
        initial
    } else {
        backoff(initial, percent, (k - 1) as nat) * percent / 100
    }
}

/// The delay of attempt `k` under `c`: the backoff, capped at the maximum.
pub open spec fn retry_delay(c: RetryConfig, k: nat) -> nat {
    let d = backoff(c.initial_delay_ms as nat, c.backoff_percent as nat, k);
    if d > c.max_delay_ms { c.max_delay_ms as nat } else { d }
}

proof fn lemma_backoff_step(initial: nat, percent: nat, k: nat)
    requires
        percent >= 100,
    ensures
        backoff(initial, percent, k) <= backoff(initial, percent, k + 1),
{
    let x = backoff(initial, percent, k);
    assert(x * percent / 100 >= x) by (nonlinear_arith)
        requires percent >= 100;
}

proof fn lemma_backoff_mono(initial: nat, percent: nat, j: nat, k: nat)
    requires
        percent >= 100,
        j <= k,
    ensures
        backoff(initial, percent, j) <= backoff(initial, percent, k),
    decreases k - j,
{
    if j < k {
        lemma_backoff_mono(initial, percent, j, (k - 1) as nat);
        lemma_backoff_step(initial, percent, (k - 1) as nat);
    }
}

/// Backoff monotonicity: with a factor of at least 1, the delay never
/// decreases from one attempt to a later one; whatever the factor, it never
/// exceeds the configured maximum.
pub proof fn lemma_retry_delay_monotone(c: RetryConfig, j: nat, k: nat)
    requires
        c.backoff_percent >= 100,
        j <= k,
    ensures
        retry_delay(c, j) <= retry_delay(c, k),
        retry_delay(c, k) <= c.max_delay_ms,
{
    lemma_backoff_mono(c.initial_delay_ms as nat, c.backoff_percent as nat, j, k);
}

impl Default for RetryConfig {
    /// Three attempts, 100 ms doubling up to 5 s.
    fn default() -> (r: RetryConfig)
        ensures
            r == (RetryConfig { max_attempts: 3, initial_delay_ms: 100, max_delay_ms: 5000, backoff_percent: 200 }),
    {
        RetryConfig { max_attempts: 3, initial_delay_ms: 100, max_delay_ms: 5000, backoff_percent: 200 }
    }
}

impl RetryConfig {
    /// The policy for connection attempts: five attempts, 200 ms growing by
    /// half up to 3 s.
    pub fn for_connection() -> (r: RetryConfig)
        ensures
            r == (RetryConfig { max_attempts: 5, initial_delay_ms: 200, max_delay_ms: 3000, backoff_percent: 150 }),
    {
        RetryConfig { max_attempts: 5, initial_delay_ms: 200, max_delay_ms: 3000, backoff_percent: 150 }
    }

    /// The policy for agent queries: two attempts, 500 ms doubling up to 2 s.
    pub fn for_query() -> (r: RetryConfig)
        ensures
            r == (RetryConfig { max_attempts: 2, initial_delay_ms: 500, max_delay_ms: 2000, backoff_percent: 200 }),
    {
        RetryConfig { max_attempts: 2, initial_delay_ms: 500, max_delay_ms: 2000, backoff_percent: 200 }
    }

    /// The delay of attempt `attempt`, in milliseconds.
    pub fn delay_for_attempt(&self, attempt: u32) -> (r: u64)
        ensures
            r == retry_delay(*self, attempt as nat),
    {
        let ghost init = self.initial_delay_ms as nat;
        let ghost pct = self.backoff_percent as nat;
        let max = self.max_delay_ms;
        let mut d: u64 = self.initial_delay_ms;
        if self.backoff_percent >= 100 && d >= max {
            proof {
                lemma_backoff_mono(init, pct, 0, attempt as nat);
            }
            return max;
        }
        let mut i: u32 = 0;
        while i < attempt
            invariant
                i <= attempt,
                d as nat == backoff(init, pct, i as nat),
                self.backoff_percent >= 100 ==> d < max,
                init == self.initial_delay_ms,
                pct == self.backoff_percent,
                max == self.max_delay_ms,
            decreases attempt - i,
        {
            let dw: u128 = d as u128;
            let pw: u128 = self.backoff_percent as u128;
            assert(dw * pw <= u64::MAX as u128 * u64::MAX as u128) by (nonlinear_arith)
                requires dw <= u64::MAX, pw <= u64::MAX;
            let next: u128 = dw * pw / 100;
            assert(next as nat == backoff(init, pct, (i + 1) as nat));
            if self.backoff_percent >= 100 && next >= max as u128 {
                proof {
                    lemma_backoff_mono(init, pct, (i + 1) as nat, attempt as nat);
                }
                return max;
            }
            if self.backoff_percent < 100 {
                assert((d as nat) * pct / 100 <= d as nat) by (nonlinear_arith)
                    requires pct < 100;
            }
            d = next as u64;
            i = i + 1;
        }
        if d > max { max } else { d }
    }
}

} // verus!
