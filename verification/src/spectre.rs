use vstd::prelude::*;
use crate::chars::strings_view;
use crate::config::Config;
use crate::models::ExecutionStatus;
use crate::text::{int_text, joined, join_strings, nat_text, push_int, push_nat, push_str, string_from};
use crate::tunnel::{names_target, SshTarget};

verus! {

/// A Spectre runner, local or on the remote host.
pub struct SpectreSimulator {
    pub spectre_cmd: String,
    pub spectre_args: Vec<String>,
    pub timeout: u64,
    pub work_dir: String,
    pub output_format: String,
    pub remote: bool,
    pub ssh_runner: Option<SshTarget>,
    pub remote_work_dir: Option<String>,
    pub keep_remote_files: bool,
}

/// The fixed Spectre options, after the netlist: escaped characters, a
/// log file, the output format, the raw directory, license queueing and
/// warning/notice limits, status logging.
pub open spec fn fixed_args(netlist: Seq<char>, log: Seq<char>, format: Seq<char>, raw: Seq<char>) -> Seq<Seq<char>> {
    seq!["-64"@, netlist, "+escchars"@, "+log"@, log, "-format"@, format, "-raw"@, raw,
        "+lqtimeout"@, "900"@, "-maxw"@, "5"@, "-maxn"@, "5"@, "+logstatus"@]
}

/// The remote run directory for a run id.
pub open spec fn remote_run_dir(run_id: Seq<char>) -> Seq<char> {
    "/tmp/virtuoso_bridge/spectre/"@ + run_id
}

/// The shell command that runs Spectre in the remote run directory.
pub open spec fn remote_spectre_text(cmd: Seq<char>, format: Seq<char>, args: Seq<Seq<char>>) -> Seq<char> {
    let base = cmd + " -64 input.scs +escchars +log spectre.out -format "@ + format
        + " -raw raw +lqtimeout 900 -maxw 5 -maxn 5 +logstatus"@;
    if args.len() == 0 { base } else { base + " "@ + joined(args, " "@) }
}

fn push_owned(v: &mut Vec<String>, s: &str)
    ensures
        strings_view(final(v)@) == strings_view(old(v)@).push(s@),
{
    let ghost before = v@;
    v.push(string_from(s));
    assert(strings_view(v@) =~= strings_view(before).push(s@));
}

fn copy_strings(v: &Vec<String>) -> (r: Vec<String>)
    ensures
        strings_view(r@) == strings_view(v@),
{
    let mut r: Vec<String> = Vec::new();
    for i in 0..v.len()
        invariant
            strings_view(r@) == strings_view(v@.take(i as int)),
    {
        push_owned(&mut r, v[i].as_str());
        assert(strings_view(v@.take(i + 1)) =~= strings_view(v@.take(i as int)).push(v@[i as int]@));
    }
    assert(v@.take(v.len() as int) == v@);
    r
}

impl SpectreSimulator {
    /// A runner set up from the configuration, working in `work_dir`; it
    /// runs remotely exactly when the configuration names a remote host.
    pub fn from_env(cfg: &Config, work_dir: String) -> (s: Self)
        ensures
            s.spectre_cmd@ == cfg.spectre_cmd@,
            strings_view(s.spectre_args@) == strings_view(cfg.spectre_args@),
            s.timeout == cfg.timeout,
            s.work_dir == work_dir,
            s.output_format@ == "psfascii"@,
            s.remote == (cfg.remote_host@.len() > 0),
            s.remote ==> (s.ssh_runner matches Some(t) && names_target(*cfg, t)),
            !s.remote ==> s.ssh_runner is None,
            s.remote_work_dir is None,
            s.keep_remote_files == cfg.keep_remote_files,
    {
        let remote = cfg.is_remote();
        let ssh_runner = if remote { Some(SshTarget::from_config(cfg)) } else { None };
        SpectreSimulator {
            spectre_cmd: string_from(cfg.spectre_cmd.as_str()),
            spectre_args: copy_strings(&cfg.spectre_args),
            timeout: cfg.timeout,
            work_dir,
            output_format: string_from("psfascii"),
            remote,
            ssh_runner,
            remote_work_dir: None,
            keep_remote_files: cfg.keep_remote_files,
        }
    }

    /// The arguments of a local Spectre run: the fixed options, then the
    /// configured extra arguments.
    pub fn local_args(&self, netlist_path: &str, log_path: &str, raw_dir: &str) -> (r: Vec<String>)
        ensures
            strings_view(r@) == fixed_args(netlist_path@, log_path@, self.output_format@, raw_dir@)
                + strings_view(self.spectre_args@),
    {
        let mut r: Vec<String> = Vec::new();
        assert(strings_view(r@) =~= Seq::<Seq<char>>::empty());
        push_owned(&mut r, "-64");
        push_owned(&mut r, netlist_path);
        push_owned(&mut r, "+escchars");
        push_owned(&mut r, "+log");
        push_owned(&mut r, log_path);
        push_owned(&mut r, "-format");
        push_owned(&mut r, self.output_format.as_str());
        push_owned(&mut r, "-raw");
        push_owned(&mut r, raw_dir);
        push_owned(&mut r, "+lqtimeout");
        push_owned(&mut r, "900");
        push_owned(&mut r, "-maxw");
        push_owned(&mut r, "5");
        push_owned(&mut r, "-maxn");
        push_owned(&mut r, "5");
        push_owned(&mut r, "+logstatus");
        let ghost fixed = strings_view(r@);
        assert(fixed =~= fixed_args(netlist_path@, log_path@, self.output_format@, raw_dir@));
        let args = &self.spectre_args;
        for i in 0..args.len()
            invariant
                args == &self.spectre_args,
                strings_view(r@) == fixed + strings_view(args@.take(i as int)),
        {
            push_owned(&mut r, args[i].as_str());
            assert(strings_view(args@.take(i + 1)) =~= strings_view(args@.take(i as int)).push(args@[i as int]@));
        }
        assert(args@.take(args.len() as int) == args@);
        r
    }

    /// The remote run directory of a run.
    pub fn remote_run_dir(run_id: &str) -> (r: String)
        ensures
            r@ == remote_run_dir(run_id@),
    {
        let mut r = string_from("/tmp/virtuoso_bridge/spectre/");
        push_str(&mut r, run_id);
        r
    }

    /// The Spectre command line run in the remote directory.
    pub fn remote_spectre_command(&self) -> (r: String)
        ensures
            r@ == remote_spectre_text(self.spectre_cmd@, self.output_format@, strings_view(self.spectre_args@)),
    {
        let mut r = string_from(self.spectre_cmd.as_str());
        push_str(&mut r, " -64 input.scs +escchars +log spectre.out -format ");
        push_str(&mut r, self.output_format.as_str());
        push_str(&mut r, " -raw raw +lqtimeout 900 -maxw 5 -maxn 5 +logstatus");
        if self.spectre_args.len() > 0 {
            push_str(&mut r, " ");
            let joined_args = join_strings(self.spectre_args.as_slice(), " ");
            assert(self.spectre_args@.map_values(|s: String| s@) == strings_view(self.spectre_args@));
            push_str(&mut r, joined_args.as_str());
        }
        r
    }

    /// `cd <dir> && <spectre command>`: the remote simulation command.
    pub fn remote_sim_command(&self, remote_dir: &str) -> (r: String)
        ensures
            r@ == "cd "@ + remote_dir@ + " && "@
                + remote_spectre_text(self.spectre_cmd@, self.output_format@, strings_view(self.spectre_args@)),
    {
        let mut r = string_from("cd ");
        push_str(&mut r, remote_dir);
        push_str(&mut r, " && ");
        let c = self.remote_spectre_command();
        push_str(&mut r, c.as_str());
        r
    }

    /// How long a remote run may take: twice the local timeout.
    pub fn remote_timeout(&self) -> (r: u64)
        requires
            self.timeout <= u64::MAX / 2,
        ensures
            r == 2 * self.timeout,
    {
        self.timeout * 2
    }
}

/// The error of a local run that exited unsuccessfully, with the exit code
/// as `{:?}` shows an `Option<i32>`.
pub fn exit_error(code: Option<i32>) -> (r: String)
    ensures
        r@ == "spectre exited with code "@ + (match code {
            Some(c) => "Some("@ + int_text(c as int) + ")"@,
            None => "None"@,
        }),
{
    let mut r = string_from("spectre exited with code ");
    match code {
        Some(c) => {
            push_str(&mut r, "Some(");
            push_int(&mut r, c as i64);
            push_str(&mut r, ")");
        },
        None => push_str(&mut r, "None"),
    }
    r
}

/// The status and errors of a remote run: success, or an error carrying
/// the run's stderr.
pub fn remote_outcome(success: bool, stderr: &str) -> (r: (ExecutionStatus, Vec<String>))
    ensures
        success ==> r.0 == ExecutionStatus::Success && r.1@.len() == 0,
        !success ==> r.0 == ExecutionStatus::Error && strings_view(r.1@) == seq![stderr@],
{
    if success {
        (ExecutionStatus::Success, Vec::new())
    } else {
        let mut v: Vec<String> = Vec::new();
        push_owned(&mut v, stderr);
        assert(Seq::<Seq<char>>::empty().push(stderr@) == seq![stderr@]);
        (ExecutionStatus::Error, v)
    }
}

} // verus!
