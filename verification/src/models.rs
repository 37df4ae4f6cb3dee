use vstd::prelude::*;
use crate::chars::{trim, trim_chars};
use crate::text::{chars_of, string_of, str_eq};

verus! {

/// How a SKILL or simulator execution ended.
#[derive(Clone, Copy, Debug, PartialEq, Eq, Structural)]
pub enum ExecutionStatus {
    Success,
    Failure,
    Partial,
    Error,
}

/// The SSH parameters of a remote Virtuoso host.
#[derive(Clone, Debug)]
pub struct RemoteSshEnv {
    pub remote_host: String,
    pub remote_user: Option<String>,
    pub jump_host: Option<String>,
    pub jump_user: Option<String>,
}

/// What is remembered about a running SSH tunnel.
#[derive(Clone, Debug)]
pub struct TunnelState {
    pub version: u32,
    pub port: u16,
    pub pid: u32,
    pub remote_host: String,
    pub setup_path: Option<String>,
}

/// An active Virtuoso bridge session.
#[derive(Clone, Debug)]
pub struct SessionInfo {
    pub id: String,
    pub port: u16,
    pub pid: u32,
    pub host: String,
    pub created: String,
}

/// The state of a background simulation job.
#[derive(Clone, Copy, Debug, PartialEq, Eq, Structural)]
pub enum JobStatus {
    Running,
    Completed,
    Failed,
    Cancelled,
}

/// A background Spectre simulation.
#[derive(Clone, Debug)]
pub struct Job {
    pub id: String,
    pub status: JobStatus,
    pub netlist_path: String,
    pub raw_dir: Option<String>,
    pub pid: Option<u32>,
    pub created: String,
    pub finished: Option<String>,
    pub error: Option<String>,
    pub remote_host: Option<String>,
    pub remote_dir: Option<String>,
}

/// A SKILL execution result. (The execution time, a float, is kept by the
/// caller.)
#[derive(Clone, Debug)]
pub struct VirtuosoResult {
    pub status: ExecutionStatus,
    pub output: String,
    pub errors: Vec<String>,
    pub warnings: Vec<String>,
    /// Extra facts about the call, by name (none is recorded for a SKILL
    /// call).
    pub metadata: Vec<(String, String)>,
}

impl VirtuosoResult {
    /// Whether the execution succeeded.
    pub fn ok(&self) -> (b: bool)
        ensures
            b == (self.status == ExecutionStatus::Success),
    {
        match self.status {
            ExecutionStatus::Success => true,
            _ => false,
        }
    }

    /// Whether the SKILL call succeeded and produced a value: it succeeded
    /// and its output, trimmed, is not `nil`.
    pub fn skill_ok(&self) -> (b: bool)
        ensures
            b == (self.status == ExecutionStatus::Success && trim(self.output@) != "nil"@),
    {
        if !self.ok() {
            return false;
        }
        let t = trim_chars(&chars_of(self.output.as_str()));
        let s = string_of(t.as_slice());
        !str_eq(s.as_str(), "nil")
    }

    /// A successful result with the given output.
    pub fn success(output: String) -> (r: Self)
        ensures
            r.status == ExecutionStatus::Success,
            r.output == output,
            r.errors@.len() == 0,
            r.warnings@.len() == 0,
            r.metadata@.len() == 0,
    {
        VirtuosoResult { status: ExecutionStatus::Success, output, errors: Vec::new(), warnings: Vec::new(), metadata: Vec::new() }
    }

    /// A failed result with the given errors.
    pub fn error(errors: Vec<String>) -> (r: Self)
        ensures
            r.status == ExecutionStatus::Error,
            r.output@ == Seq::<char>::empty(),
            r.errors == errors,
            r.warnings@.len() == 0,
            r.metadata@.len() == 0,
    {
        VirtuosoResult { status: ExecutionStatus::Error, output: String::new(), errors, warnings: Vec::new(), metadata: Vec::new() }
    }
}

} // verus!
