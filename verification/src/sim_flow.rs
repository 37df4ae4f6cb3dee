use vstd::prelude::*;
use crate::chars::{strings_view, trim, trim_char, trim_chars, trim_char_chars};
use crate::error::VirtuosoError;
use crate::guard::{lowercase, measure_verdict, validate_measure_expr, verdict_matches};
use crate::models::{ExecutionStatus, VirtuosoResult};
use crate::ocean::{analysis_skill_simple, analysis_skill_simple_text};
use crate::text::{chars_of, joined, join_strings, push_str, str_eq, string_from, string_of};

verus! {

/// A SKILL reply with surrounding whitespace and double quotes removed.
pub open spec fn unquoted(s: Seq<char>) -> Seq<char> {
    trim_char(trim(s), '"')
}

/// `s.trim().trim_matches('"')`.
pub fn unquote(s: &str) -> (r: String)
    ensures
        r@ == unquoted(s@),
{
    let t = trim_chars(&chars_of(s));
    string_of(trim_char_chars(&t, '"').as_slice())
}

/// The errors of a result joined by `; `.
pub open spec fn errors_text(r: VirtuosoResult) -> Seq<char> {
    joined(strings_view(r.errors@), "; "@)
}

fn errors_joined(r: &VirtuosoResult) -> (s: String)
    ensures
        s@ == errors_text(*r),
{
    let s = join_strings(r.errors.as_slice(), "; ");
    assert(r.errors@.map_values(|x: String| x@) == strings_view(r.errors@));
    s
}

/// `isFile("<dir>/psf/spectre.out")`: whether a run left a Spectre log.
pub open spec fn spectre_out_probe(dir: Seq<char>) -> Seq<char> {
    "isFile(\""@ + dir + "/psf/spectre.out\")"@
}

fn spectre_out_probe_exec(dir: &str) -> (r: String)
    ensures
        r@ == spectre_out_probe(dir@),
{
    let mut r = string_from("isFile(\"");
    push_str(&mut r, dir);
    push_str(&mut r, "/psf/spectre.out\")");
    r
}

/// The error when no results directory is set.
pub open spec fn no_results_dir_message() -> Seq<char> {
    "resultsDir is not set. Run `virtuoso sim setup` first, or open ADE L for your testbench and run at least one simulation to establish the session path."@
}

/// The error when `run()` returned nil and no Spectre log exists.
pub open spec fn no_run_message() -> Seq<char> {
    "Simulation failed: run() returned nil and no spectre.out found. The netlist may be missing or stale — regenerate via ADE (Simulation → Netlist and Run) or `virtuoso sim netlist`."@
}

// ───────────────────────── sim run ─────────────────────────

/// Where a `sim run` stands.
#[derive(Clone, Copy, Debug, PartialEq, Eq, Structural)]
pub enum RunStage {
    /// Waiting for the current results directory.
    ResultsDir,
    /// Waiting for the analysis setup's reply.
    Analysis,
    /// Waiting for the reply to saving all signals.
    Save,
    /// Waiting for `run()`.
    Run,
    /// Waiting for the results directory after the run.
    FinalDir,
    /// Waiting for the check for a Spectre log.
    SpectreOut,
    /// Done.
    Finished,
}

/// What to do next in a flow: run a SKILL expression (with an optional
/// timeout), or stop with a value or an error.
#[derive(Debug)]
pub enum FlowStep<T> {
    Execute(String, Option<u64>),
    Done(T),
    Fail(VirtuosoError),
}

/// A `sim run` in progress: set up the analysis, save, run, and find the
/// results directory.
#[derive(Debug)]
pub struct SimRun {
    pub stage: RunStage,
    pub analysis: String,
    pub params: Vec<(String, String)>,
    pub timeout: u64,
    pub run_output: String,
    pub results_dir: String,
}

/// Whether a step asks to execute exactly `skill` with `timeout`.
pub open spec fn executes<T>(s: FlowStep<T>, skill: Seq<char>, timeout: Option<u64>) -> bool {
    s matches FlowStep::Execute(x, t) && x@ == skill && t == timeout
}

/// Whether a step fails with exactly `e` (for a failed call).
pub open spec fn fails_with<T>(s: FlowStep<T>, e: VirtuosoError) -> bool {
    s matches FlowStep::Fail(x) && x == e
}

/// Whether a step fails with an execution error carrying `m`.
pub open spec fn fails_execution<T>(s: FlowStep<T>, m: Seq<char>) -> bool {
    s matches FlowStep::Fail(VirtuosoError::Execution(x)) && x@ == m
}

impl SimRun {
    /// Starts a run of `analysis` with `params`; the first step asks for
    /// the results directory.
    pub fn new(analysis: String, params: Vec<(String, String)>, timeout: u64) -> (r: (SimRun, FlowStep<String>))
        ensures
            r.0.stage == RunStage::ResultsDir,
            r.0.analysis == analysis,
            r.0.params == params,
            r.0.timeout == timeout,
            executes(r.1, "resultsDir()"@, None),
    {
        (SimRun { stage: RunStage::ResultsDir, analysis, params, timeout, run_output: String::new(), results_dir: String::new() },
            FlowStep::Execute(string_from("resultsDir()"), None))
    }

    /// Takes the reply to the last step and says what to do next. A failed
    /// call ends the run with its error, except that saving may fail.
    pub fn step(&mut self, reply: Result<VirtuosoResult, VirtuosoError>) -> (s: FlowStep<String>)
        ensures
            final(self).analysis == old(self).analysis,
            final(self).params == old(self).params,
            final(self).timeout == old(self).timeout,
            match old(self).stage {
                RunStage::ResultsDir => match reply {
                    Err(e) => fails_with(s, e),
                    Ok(r) => if unquoted(r.output@) == "nil"@ || unquoted(r.output@).len() == 0 {
                        fails_execution(s, no_results_dir_message())
                    } else {
                        final(self).stage == RunStage::Analysis
                            && executes(s, analysis_skill_simple_text(old(self).analysis@, old(self).params@), None)
                    },
                },
                RunStage::Analysis => match reply {
                    Err(e) => fails_with(s, e),
                    Ok(r) => if r.status != ExecutionStatus::Success {
                        fails_execution(s, errors_text(r))
                    } else {
                        final(self).stage == RunStage::Save && executes(s, "save('all)"@, None)
                    },
                },
                RunStage::Save => final(self).stage == RunStage::Run && executes(s, "run()"@, Some(old(self).timeout)),
                RunStage::Run => match reply {
                    Err(e) => fails_with(s, e),
                    Ok(r) => if r.status != ExecutionStatus::Success {
                        fails_execution(s, errors_text(r))
                    } else {
                        final(self).stage == RunStage::FinalDir && final(self).run_output@ == unquoted(r.output@)
                            && executes(s, "resultsDir()"@, None)
                    },
                },
                RunStage::FinalDir => match reply {
                    Err(e) => fails_with(s, e),
                    Ok(r) => final(self).results_dir@ == unquoted(r.output@) && if old(self).run_output@ == "nil"@ {
                        final(self).stage == RunStage::SpectreOut && executes(s, spectre_out_probe(unquoted(r.output@)), None)
                    } else {
                        final(self).stage == RunStage::Finished && (s matches FlowStep::Done(d) && d@ == unquoted(r.output@))
                    },
                },
                RunStage::SpectreOut => match reply {
                    Err(e) => fails_with(s, e),
                    Ok(r) => if unquoted(r.output@) == "nil"@ || unquoted(r.output@) == "0"@ {
                        fails_execution(s, no_run_message())
                    } else {
                        final(self).stage == RunStage::Finished
                            && (s matches FlowStep::Done(d) && d@ == old(self).results_dir@)
                    },
                },
                RunStage::Finished => fails_execution(s, "sim run already finished"@),
            },
    {
        match self.stage {
            RunStage::ResultsDir => {
                let r = match reply {
                    Ok(r) => r,
                    Err(e) => return FlowStep::Fail(e),
                };
                let v = unquote(r.output.as_str());
                if str_eq(v.as_str(), "nil") || v.as_str().is_empty() {
                    return FlowStep::Fail(VirtuosoError::Execution(string_from(
                        "resultsDir is not set. Run `virtuoso sim setup` first, or open ADE L for your testbench and run at least one simulation to establish the session path.",
                    )));
                }
                self.stage = RunStage::Analysis;
                FlowStep::Execute(analysis_skill_simple(self.analysis.as_str(), self.params.as_slice()), None)
            },
            RunStage::Analysis => {
                let r = match reply {
                    Ok(r) => r,
                    Err(e) => return FlowStep::Fail(e),
                };
                if !r.ok() {
                    return FlowStep::Fail(VirtuosoError::Execution(errors_joined(&r)));
                }
                self.stage = RunStage::Save;
                FlowStep::Execute(string_from("save('all)"), None)
            },
            RunStage::Save => {
                self.stage = RunStage::Run;
                FlowStep::Execute(string_from("run()"), Some(self.timeout))
            },
            RunStage::Run => {
                let r = match reply {
                    Ok(r) => r,
                    Err(e) => return FlowStep::Fail(e),
                };
                if !r.ok() {
                    return FlowStep::Fail(VirtuosoError::Execution(errors_joined(&r)));
                }
                self.run_output = unquote(r.output.as_str());
                self.stage = RunStage::FinalDir;
                FlowStep::Execute(string_from("resultsDir()"), None)
            },
            RunStage::FinalDir => {
                let r = match reply {
                    Ok(r) => r,
                    Err(e) => return FlowStep::Fail(e),
                };
                self.results_dir = unquote(r.output.as_str());
                if str_eq(self.run_output.as_str(), "nil") {
                    self.stage = RunStage::SpectreOut;
                    FlowStep::Execute(spectre_out_probe_exec(self.results_dir.as_str()), None)
                } else {
                    self.stage = RunStage::Finished;
                    FlowStep::Done(string_from(self.results_dir.as_str()))
                }
            },
            RunStage::SpectreOut => {
                let r = match reply {
                    Ok(r) => r,
                    Err(e) => return FlowStep::Fail(e),
                };
                let v = unquote(r.output.as_str());
                if str_eq(v.as_str(), "nil") || str_eq(v.as_str(), "0") {
                    return FlowStep::Fail(VirtuosoError::Execution(string_from(
                        "Simulation failed: run() returned nil and no spectre.out found. The netlist may be missing or stale — regenerate via ADE (Simulation → Netlist and Run) or `virtuoso sim netlist`.",
                    )));
                }
                self.stage = RunStage::Finished;
                FlowStep::Done(string_from(self.results_dir.as_str()))
            },
            RunStage::Finished => FlowStep::Fail(VirtuosoError::Execution(string_from("sim run already finished"))),
        }
    }
}

// ───────────────────────── sim measure ─────────────────────────

/// Where a `sim measure` stands.
#[derive(Clone, Copy, Debug, PartialEq, Eq, Structural)]
pub enum MeasureStage {
    /// Waiting for the results directory.
    ResultsDir,
    /// Waiting for the results to open.
    Open,
    /// Waiting for the result type to be selected.
    Select,
    /// Waiting for the value of expression `i`.
    Measure(usize),
    /// Waiting for the check for a Spectre log.
    SpectreOut,
    /// Done.
    Finished,
}

/// The measured values and the warnings of a `sim measure`.
#[derive(Debug)]
pub struct MeasureReport {
    pub values: Vec<String>,
    pub warnings: Vec<String>,
}

/// A `sim measure` in progress: open the results, select the analysis and
/// evaluate each expression.
#[derive(Debug)]
pub struct SimMeasure {
    pub stage: MeasureStage,
    pub analysis: String,
    pub exprs: Vec<String>,
    pub rdir: String,
    pub values: Vec<String>,
}

/// The value a measurement reply gives: its unquoted output, or the
/// errors after `ERROR: `.
pub open spec fn measured_value(r: VirtuosoResult) -> Seq<char> {
    if r.status == ExecutionStatus::Success { unquoted(r.output@) } else { "ERROR: "@ + errors_text(r) }
}

/// Whether every value is `nil` (and there is one).
pub open spec fn all_nil(values: Seq<Seq<char>>) -> bool {
    values.len() > 0 && forall|i: int| 0 <= i < values.len() ==> values[i] == "nil"@
}

/// The warning for all-nil measurements, by whether Spectre left a log.
pub open spec fn nil_warning(spectre_ran: bool) -> Seq<char> {
    if spectre_ran {
        "All measurements returned nil. Spectre ran but produced no matching data — verify signal names match your schematic and that the correct analysis type is selected."@
    } else {
        "All measurements returned nil. No spectre.out found — simulation may not have run. Check netlist with `virtuoso sim netlist`."@
    }
}

/// `openResults("<dir>/psf")`.
pub open spec fn open_results_text(dir: Seq<char>) -> Seq<char> {
    "openResults(\""@ + dir + "/psf\")"@
}

/// `selectResult('<analysis>)`.
pub open spec fn select_result_text(analysis: Seq<char>) -> Seq<char> {
    "selectResult('"@ + analysis + ")"@
}

/// What follows the last answer to the measurements so far: the next
/// expression, a check for the log, or the report.
pub open spec fn after_values(m: SimMeasure, s: FlowStep<MeasureReport>) -> bool {
    let n = m.values@.len();
    if n < m.exprs@.len() {
        m.stage == MeasureStage::Measure(n as usize) && executes(s, m.exprs@[n as int]@, None)
    } else if all_nil(strings_view(m.values@)) {
        m.stage == MeasureStage::SpectreOut && executes(s, spectre_out_probe(m.rdir@), None)
    } else {
        m.stage == MeasureStage::Finished && (s matches FlowStep::Done(rep)
            && strings_view(rep.values@) == strings_view(m.values@) && rep.warnings@.len() == 0)
    }
}

fn all_nil_exec(values: &Vec<String>) -> (b: bool)
    ensures
        b == all_nil(strings_view(values@)),
{
    if values.len() == 0 {
        return false;
    }
    for i in 0..values.len()
        invariant
            values@.len() > 0,
            forall|k: int| 0 <= k < i ==> strings_view(values@)[k] == "nil"@,
    {
        if !str_eq(values[i].as_str(), "nil") {
            assert(strings_view(values@)[i as int] != "nil"@);
            return false;
        }
    }
    true
}

fn validate_all(exprs: &Vec<String>) -> (r: Result<(), VirtuosoError>)
    ensures
        r is Ok <==> forall|i: int| 0 <= i < exprs@.len() ==> measure_verdict(lowercase(#[trigger] exprs@[i]@)) is Ok,
        r matches Err(e) ==> exists|i: int| 0 <= i < exprs@.len()
            && verdict_matches(Err(e), measure_verdict(lowercase(#[trigger] exprs@[i]@)))
            && forall|j: int| 0 <= j < i ==> measure_verdict(lowercase(#[trigger] exprs@[j]@)) is Ok,
{
    for i in 0..exprs.len()
        invariant
            forall|j: int| 0 <= j < i ==> measure_verdict(lowercase(#[trigger] exprs@[j]@)) is Ok,
    {
        match validate_measure_expr(exprs[i].as_str()) {
            Ok(()) => {},
            Err(e) => {
                assert(verdict_matches(Err(e), measure_verdict(lowercase(exprs@[i as int]@))));
                return Err(e);
            },
        }
    }
    Ok(())
}

impl SimMeasure {
    /// Starts measuring `exprs` on `analysis`: every expression must pass
    /// the measurement guard (the first that does not is the error); the
    /// first step asks for the results directory.
    pub fn new(analysis: String, exprs: Vec<String>) -> (r: Result<(SimMeasure, FlowStep<MeasureReport>), VirtuosoError>)
        ensures
            r is Ok <==> forall|i: int| 0 <= i < exprs@.len() ==> measure_verdict(lowercase(#[trigger] exprs@[i]@)) is Ok,
            r matches Err(e) ==> exists|i: int| 0 <= i < exprs@.len()
                && verdict_matches(Err(e), measure_verdict(lowercase(#[trigger] exprs@[i]@)))
                && forall|j: int| 0 <= j < i ==> measure_verdict(lowercase(#[trigger] exprs@[j]@)) is Ok,
            r matches Ok((m, s)) ==> m.stage == MeasureStage::ResultsDir && m.analysis == analysis && m.exprs == exprs
                && m.values@.len() == 0 && executes(s, "resultsDir()"@, None),
    {
        match validate_all(&exprs) {
            Err(e) => Err(e),
            Ok(()) => Ok((SimMeasure { stage: MeasureStage::ResultsDir, analysis, exprs, rdir: String::new(), values: Vec::new() },
                FlowStep::Execute(string_from("resultsDir()"), None))),
        }
    }

    /// The measurement after the last answer.
    fn after(&mut self) -> (s: FlowStep<MeasureReport>)
        requires
            old(self).values@.len() <= old(self).exprs@.len(),
        ensures
            *final(self) == (SimMeasure { stage: final(self).stage, ..*old(self) }),
            after_values(*final(self), s),
    {
        let n = self.values.len();
        if n < self.exprs.len() {
            self.stage = MeasureStage::Measure(n);
            FlowStep::Execute(string_from(self.exprs[n].as_str()), None)
        } else if all_nil_exec(&self.values) {
            self.stage = MeasureStage::SpectreOut;
            FlowStep::Execute(spectre_out_probe_exec(self.rdir.as_str()), None)
        } else {
            self.stage = MeasureStage::Finished;
            let mut vals: Vec<String> = Vec::new();
            for i in 0..self.values.len()
                invariant
                    strings_view(vals@) == strings_view(self.values@.take(i as int)),
            {
                let ghost before = vals@;
                vals.push(string_from(self.values[i].as_str()));
                assert(strings_view(vals@) =~= strings_view(before).push(self.values@[i as int]@));
                assert(strings_view(self.values@.take(i + 1)) =~= strings_view(self.values@.take(i as int)).push(self.values@[i as int]@));
            }
            assert(self.values@.take(self.values.len() as int) == self.values@);
            FlowStep::Done(MeasureReport { values: vals, warnings: Vec::new() })
        }
    }

    /// Takes the reply to the last step and says what to do next. Opening
    /// and selecting results may fail; a failed measurement call ends the
    /// measure with its error; a failed log check counts as no log.
    pub fn step(&mut self, reply: Result<VirtuosoResult, VirtuosoError>) -> (s: FlowStep<MeasureReport>)
        requires
            old(self).stage matches MeasureStage::Measure(i) ==> i == old(self).values@.len() && i < old(self).exprs@.len(),
            !(old(self).stage is Measure) && !(old(self).stage is SpectreOut) && !(old(self).stage is Finished)
                ==> old(self).values@.len() == 0,
            old(self).stage is SpectreOut ==> old(self).values@.len() == old(self).exprs@.len(),
        ensures
            final(self).analysis == old(self).analysis,
            final(self).exprs == old(self).exprs,
            match old(self).stage {
                MeasureStage::ResultsDir => match reply {
                    Err(e) => fails_with(s, e),
                    Ok(r) => final(self).rdir@ == unquoted(r.output@) && final(self).values@.len() == 0 && if unquoted(r.output@) != "nil"@ && unquoted(r.output@).len() > 0 {
                        final(self).stage == MeasureStage::Open && executes(s, open_results_text(unquoted(r.output@)), None)
                    } else {
                        final(self).stage == MeasureStage::Select && executes(s, select_result_text(old(self).analysis@), None)
                    },
                },
                MeasureStage::Open => final(self).stage == MeasureStage::Select && final(self).values@.len() == 0
                    && final(self).rdir == old(self).rdir && executes(s, select_result_text(old(self).analysis@), None),
                MeasureStage::Select => *final(self) == (SimMeasure { stage: final(self).stage, ..*old(self) })
                    && after_values(*final(self), s),
                MeasureStage::Measure(_) => match reply {
                    Err(e) => fails_with(s, e),
                    Ok(r) => final(self).rdir == old(self).rdir
                        && strings_view(final(self).values@) == strings_view(old(self).values@).push(measured_value(r))
                        && after_values(*final(self), s),
                },
                MeasureStage::SpectreOut => {
                    let ran = match reply {
                        Ok(r) => unquoted(r.output@) != "nil"@ && unquoted(r.output@) != "0"@,
                        Err(_) => false,
                    };
                    final(self).stage == MeasureStage::Finished && (s matches FlowStep::Done(rep)
                        && strings_view(rep.values@) == strings_view(old(self).values@)
                        && strings_view(rep.warnings@) == seq![nil_warning(ran)])
                },
                MeasureStage::Finished => fails_execution(s, "sim measure already finished"@),
            },
    {
        match self.stage {
            MeasureStage::ResultsDir => {
                let r = match reply {
                    Ok(r) => r,
                    Err(e) => return FlowStep::Fail(e),
                };
                self.rdir = unquote(r.output.as_str());
                if !str_eq(self.rdir.as_str(), "nil") && !self.rdir.as_str().is_empty() {
                    self.stage = MeasureStage::Open;
                    let mut skill = string_from("openResults(\"");
                    push_str(&mut skill, self.rdir.as_str());
                    push_str(&mut skill, "/psf\")");
                    FlowStep::Execute(skill, None)
                } else {
                    self.stage = MeasureStage::Select;
                    let mut skill = string_from("selectResult('");
                    push_str(&mut skill, self.analysis.as_str());
                    push_str(&mut skill, ")");
                    FlowStep::Execute(skill, None)
                }
            },
            MeasureStage::Open => {
                self.stage = MeasureStage::Select;
                let mut skill = string_from("selectResult('");
                push_str(&mut skill, self.analysis.as_str());
                push_str(&mut skill, ")");
                FlowStep::Execute(skill, None)
            },
            MeasureStage::Select => self.after(),
            MeasureStage::Measure(_) => {
                let r = match reply {
                    Ok(r) => r,
                    Err(e) => return FlowStep::Fail(e),
                };
                let value = if r.ok() {
                    unquote(r.output.as_str())
                } else {
                    let mut v = string_from("ERROR: ");
                    let errs = errors_joined(&r);
                    push_str(&mut v, errs.as_str());
                    v
                };
                let ghost before = self.values@;
                self.values.push(value);
                assert(strings_view(self.values@) =~= strings_view(before).push(value@));
                self.after()
            },
            MeasureStage::SpectreOut => {
                let ran = match reply {
                    Ok(r) => {
                        let v = unquote(r.output.as_str());
                        !str_eq(v.as_str(), "nil") && !str_eq(v.as_str(), "0")
                    },
                    Err(_) => false,
                };
                self.stage = MeasureStage::Finished;
                let mut vals: Vec<String> = Vec::new();
                for i in 0..self.values.len()
                    invariant
                        strings_view(vals@) == strings_view(self.values@.take(i as int)),
                {
                    let ghost b = vals@;
                    vals.push(string_from(self.values[i].as_str()));
                    assert(strings_view(vals@) =~= strings_view(b).push(self.values@[i as int]@));
                    assert(strings_view(self.values@.take(i + 1)) =~= strings_view(self.values@.take(i as int)).push(self.values@[i as int]@));
                }
                assert(self.values@.take(self.values.len() as int) == self.values@);
                let warning = if ran {
                    string_from("All measurements returned nil. Spectre ran but produced no matching data — verify signal names match your schematic and that the correct analysis type is selected.")
                } else {
                    string_from("All measurements returned nil. No spectre.out found — simulation may not have run. Check netlist with `virtuoso sim netlist`.")
                };
                let mut warnings: Vec<String> = Vec::new();
                warnings.push(warning);
                assert(strings_view(warnings@) =~= seq![nil_warning(ran)]);
                FlowStep::Done(MeasureReport { values: vals, warnings })
            },
            MeasureStage::Finished => FlowStep::Fail(VirtuosoError::Execution(string_from("sim measure already finished"))),
        }
    }
}

} // verus!

verus! {

// ───────────────────────── one-shot simulation commands ─────────────────────────

/// Whether a reply succeeded; if not, its errors joined by `; ` as an
/// execution error.
pub fn require_ok(r: &VirtuosoResult) -> (res: Result<(), VirtuosoError>)
    ensures
        r.status == ExecutionStatus::Success ==> res is Ok,
        r.status != ExecutionStatus::Success ==> (res matches Err(VirtuosoError::Execution(m)) && m@ == errors_text(*r)),
{
    if r.ok() {
        Ok(())
    } else {
        Err(VirtuosoError::Execution(errors_joined(r)))
    }
}

/// The SKILL code that lists the files of the results directory `dir`
/// (nil when it is not a directory).
pub fn results_listing_skill(dir: &str) -> (r: String)
    ensures
        r@ == "let((dir files) dir=\""@ + dir@ + "\" when(isDir(dir) files=getDirFiles(dir)) files)"@,
{
    let mut r = string_from("let((dir files) dir=\"");
    push_str(&mut r, dir);
    push_str(&mut r, "\" when(isDir(dir) files=getDirFiles(dir)) files)");
    r
}

/// The Ocean call that writes the netlist, regenerating all of it when
/// `recreate` is set.
pub fn netlist_skill(recreate: bool) -> (r: &'static str)
    ensures
        recreate ==> r@ == "createNetlist(?recreateAll t ?display nil)"@,
        !recreate ==> r@ == "createNetlist(?display nil)"@,
{
    if recreate {
        "createNetlist(?recreateAll t ?display nil)"
    } else {
        "createNetlist(?display nil)"
    }
}

/// The netlisting call through the ADE session of the current window, tried
/// when the Ocean call gives nothing.
pub fn asi_netlist_skill() -> (r: &'static str)
    ensures
        r@ == "asiCreateNetlist(asiGetSession(hiGetCurrentWindow()))"@,
{
    "asiCreateNetlist(asiGetSession(hiGetCurrentWindow()))"
}

/// What a netlisting call produced: its unquoted output, when the call
/// succeeded and did not answer `nil`.
pub fn netlist_output(r: &VirtuosoResult) -> (out: Option<String>)
    ensures
        (r.status == ExecutionStatus::Success && unquoted(r.output@) != "nil"@) ==> (out matches Some(s) && s@ == unquoted(r.output@)),
        !(r.status == ExecutionStatus::Success && unquoted(r.output@) != "nil"@) ==> out is None,
{
    let v = unquote(r.output.as_str());
    if r.ok() && !str_eq(v.as_str(), "nil") {
        Some(v)
    } else {
        None
    }
}

/// The error when neither netlisting call worked.
pub fn netlist_failure() -> (e: VirtuosoError)
    ensures
        e matches VirtuosoError::Execution(m) && m@ == "Cannot create netlist programmatically. Open ADE L for this cell and run Simulation → Netlist and Run."@,
{
    VirtuosoError::Execution(string_from("Cannot create netlist programmatically. Open ADE L for this cell and run Simulation → Netlist and Run."))
}

} // verus!
