use vstd::prelude::*;
use crate::chars::{contains, str_contains};
use crate::text::{nat_text, push_nat, push_str, string_from};

verus! {

/// Everything that can go wrong talking to Virtuoso. `Io` and `Json` hold
/// the message of the underlying I/O or JSON error.
#[derive(Debug)]
pub enum VirtuosoError {
    Connection(String),
    Execution(String),
    Ssh(String),
    Io(String),
    Json(String),
    Timeout(u64),
    DaemonNotReady(String),
    Config(String),
    NotFound(String),
    Conflict(String),
}

/// How the process should exit for an error.
#[derive(Clone, Copy, Debug, PartialEq, Eq, Structural)]
pub enum ExitKind {
    GeneralError,
    UsageError,
    NotFound,
    Conflict,
}

/// The machine-readable form of an error for the CLI.
#[derive(Debug)]
pub struct CliError {
    pub error: String,
    pub message: String,
    pub suggestion: Option<String>,
    pub retryable: bool,
}

/// The text of an error message.
pub open spec fn error_message(e: VirtuosoError) -> Seq<char> {
    match e {
        VirtuosoError::Connection(m) => "connection failed: "@ + m@,
        VirtuosoError::Execution(m) => "execution failed: "@ + m@,
        VirtuosoError::Ssh(m) => "ssh error: "@ + m@,
        VirtuosoError::Io(m) => "io error: "@ + m@,
        VirtuosoError::Json(m) => "json error: "@ + m@,
        VirtuosoError::Timeout(s) => "timeout after "@ + nat_text(s as nat) + "s"@,
        VirtuosoError::DaemonNotReady(m) => "daemon not ready: "@ + m@,
        VirtuosoError::Config(m) => "config error: "@ + m@,
        VirtuosoError::NotFound(m) => "not found: "@ + m@,
        VirtuosoError::Conflict(m) => "conflict: "@ + m@,
    }
}

/// The error's type tag.
pub open spec fn error_type_text(e: VirtuosoError) -> Seq<char> {
    match e {
        VirtuosoError::Connection(_) => "connection_failed"@,
        VirtuosoError::Execution(_) => "execution_failed"@,
        VirtuosoError::Ssh(_) => "ssh_error"@,
        VirtuosoError::Io(_) => "io_error"@,
        VirtuosoError::Json(_) => "json_error"@,
        VirtuosoError::Timeout(_) => "timeout"@,
        VirtuosoError::DaemonNotReady(_) => "daemon_not_ready"@,
        VirtuosoError::Config(_) => "config_error"@,
        VirtuosoError::NotFound(_) => "not_found"@,
        VirtuosoError::Conflict(_) => "conflict"@,
    }
}

/// Whether retrying may help: connection failures, timeouts, daemon not ready.
pub open spec fn is_retryable(e: VirtuosoError) -> bool {
    e is Connection || e is Timeout || e is DaemonNotReady
}

/// The hint shown with an error, if any.
pub open spec fn suggestion_text(e: VirtuosoError) -> Option<Seq<char>> {
    match e {
        VirtuosoError::Config(m) => if contains(m@, "VB_REMOTE_HOST"@) {
            Some("Run: virtuoso init"@)
        } else {
            None
        },
        VirtuosoError::DaemonNotReady(_) => Some("Run: virtuoso tunnel start"@),
        VirtuosoError::Connection(_) => Some("Run: virtuoso tunnel start"@),
        VirtuosoError::Timeout(s) => Some("Retry with --timeout "@ + nat_text((2 * s) as nat)),
        VirtuosoError::Ssh(m) => if contains(m@, "authentication"@) {
            Some("Check SSH keys: ssh-add -l"@)
        } else {
            None
        },
        _ => None,
    }
}

/// The exit kind of an error.
pub open spec fn exit_kind(e: VirtuosoError) -> ExitKind {
    match e {
        VirtuosoError::Config(_) => ExitKind::UsageError,
        VirtuosoError::NotFound(_) => ExitKind::NotFound,
        VirtuosoError::Conflict(_) => ExitKind::Conflict,
        _ => ExitKind::GeneralError,
    }
}

/// The process exit status of an exit kind, as the command schema lists
/// them: 1 general error, 2 usage error, 3 not found, 5 conflict.
pub open spec fn exit_status(k: ExitKind) -> i32 {
    match k {
        ExitKind::GeneralError => 1,
        ExitKind::UsageError => 2,
        ExitKind::NotFound => 3,
        ExitKind::Conflict => 5,
    }
}

impl ExitKind {
    /// The process exit status.
    pub fn code(self) -> (c: i32)
        ensures
            c == exit_status(self),
    {
        match self {
            ExitKind::GeneralError => 1,
            ExitKind::UsageError => 2,
            ExitKind::NotFound => 3,
            ExitKind::Conflict => 5,
        }
    }
}

/// The view of an optional string.
pub open spec fn opt_string_view(o: Option<String>) -> Option<Seq<char>> {
    match o {
        Some(s) => Some(s@),
        None => None,
    }
}

impl VirtuosoError {
    /// How the process exits for this error.
    pub fn exit_code(&self) -> (k: ExitKind)
        ensures
            k == exit_kind(*self),
    {
        match self {
            VirtuosoError::Config(_) => ExitKind::UsageError,
            VirtuosoError::NotFound(_) => ExitKind::NotFound,
            VirtuosoError::Conflict(_) => ExitKind::Conflict,
            _ => ExitKind::GeneralError,
        }
    }

    /// The error's type tag.
    pub fn error_type(&self) -> (r: &'static str)
        ensures
            r@ == error_type_text(*self),
    {
        match self {
            VirtuosoError::Connection(_) => "connection_failed",
            VirtuosoError::Execution(_) => "execution_failed",
            VirtuosoError::Ssh(_) => "ssh_error",
            VirtuosoError::Io(_) => "io_error",
            VirtuosoError::Json(_) => "json_error",
            VirtuosoError::Timeout(_) => "timeout",
            VirtuosoError::DaemonNotReady(_) => "daemon_not_ready",
            VirtuosoError::Config(_) => "config_error",
            VirtuosoError::NotFound(_) => "not_found",
            VirtuosoError::Conflict(_) => "conflict",
        }
    }

    /// Whether retrying may help.
    pub fn retryable(&self) -> (b: bool)
        ensures
            b == is_retryable(*self),
    {
        match self {
            VirtuosoError::Connection(_) | VirtuosoError::Timeout(_) | VirtuosoError::DaemonNotReady(_) => true,
            _ => false,
        }
    }

    /// A hint on how to recover, if there is one.
    pub fn suggestion(&self) -> (r: Option<String>)
        requires
            self is Timeout ==> self->Timeout_0 <= u64::MAX / 2,
        ensures
            opt_string_view(r) == suggestion_text(*self),
    {
        match self {
            VirtuosoError::Config(m) => if str_contains(m.as_str(), "VB_REMOTE_HOST") {
                Some(string_from("Run: virtuoso init"))
            } else {
                None
            },
            VirtuosoError::DaemonNotReady(_) | VirtuosoError::Connection(_) => Some(string_from("Run: virtuoso tunnel start")),
            VirtuosoError::Timeout(secs) => {
                let mut r = string_from("Retry with --timeout ");
                push_nat(&mut r, *secs * 2);
                Some(r)
            },
            VirtuosoError::Ssh(m) => if str_contains(m.as_str(), "authentication") {
                Some(string_from("Check SSH keys: ssh-add -l"))
            } else {
                None
            },
            _ => None,
        }
    }

    /// The error message (what the error displays as).
    pub fn to_string(&self) -> (r: String)
        ensures
            r@ == error_message(*self),
    {
        let (prefix, m): (&str, &String) = match self {
            VirtuosoError::Connection(m) => ("connection failed: ", m),
            VirtuosoError::Execution(m) => ("execution failed: ", m),
            VirtuosoError::Ssh(m) => ("ssh error: ", m),
            VirtuosoError::Io(m) => ("io error: ", m),
            VirtuosoError::Json(m) => ("json error: ", m),
            VirtuosoError::Timeout(s) => {
                let mut r = string_from("timeout after ");
                push_nat(&mut r, *s);
                push_str(&mut r, "s");
                return r;
            },
            VirtuosoError::DaemonNotReady(m) => ("daemon not ready: ", m),
            VirtuosoError::Config(m) => ("config error: ", m),
            VirtuosoError::NotFound(m) => ("not found: ", m),
            VirtuosoError::Conflict(m) => ("conflict: ", m),
        };
        let mut r = string_from(prefix);
        push_str(&mut r, m.as_str());
        r
    }

    /// The error as reported on the command line.
    pub fn to_cli_error(&self) -> (c: CliError)
        requires
            self is Timeout ==> self->Timeout_0 <= u64::MAX / 2,
        ensures
            c.error@ == error_type_text(*self),
            c.message@ == error_message(*self),
            opt_string_view(c.suggestion) == suggestion_text(*self),
            c.retryable == is_retryable(*self),
    {
        CliError {
            error: string_from(self.error_type()),
            message: self.to_string(),
            suggestion: self.suggestion(),
            retryable: self.retryable(),
        }
    }
}

} // verus!
