use vstd::prelude::*;
use crate::text::{escape, quoted, push_quoted, push_escaped, push_str, string_from};

verus! {

/// Builders of the SKILL code that drives Maestro (ADE Assembler/Explorer).
pub struct MaestroOps;

/// The Virtuoso release family; the two differ in the `maeSetAnalysis` API.
#[derive(Clone, Copy, Debug, PartialEq, Eq, Structural)]
pub enum VirtuosoVersion {
    IC23,
    IC25,
}

impl VirtuosoVersion {
    /// Whether this is an IC25 release.
    pub fn is_ic25(&self) -> (b: bool)
        ensures
            b == (*self == VirtuosoVersion::IC25),
    {
        match self {
            VirtuosoVersion::IC25 => true,
            VirtuosoVersion::IC23 => false,
        }
    }
}

/// The SKILL code that turns the list of strings that `list_expr` returns
/// into the text of a JSON array of those strings (`[]` when it is nil).
pub open spec fn strings_to_json_text(list_expr: Seq<char>) -> Seq<char> {
    "let((xs out sep) xs = "@ + list_expr
        + " out = \"[\" sep = \"\" foreach(x xs out = strcat(out sep sprintf(nil \"\\\"%s\\\"\" x)) sep = \",\") strcat(out \"]\"))"@
}

/// Wraps a SKILL expression that returns a list of strings so that it yields
/// a JSON array string; nil yields `"[]"`.
fn skill_strings_to_json(list_expr: &str) -> (r: String)
    ensures
        r@ == strings_to_json_text(list_expr@),
{
    let mut r = string_from("let((xs out sep) xs = ");
    push_str(&mut r, list_expr);
    push_str(&mut r, " out = \"[\" sep = \"\" foreach(x xs out = strcat(out sep sprintf(nil \"\\\"%s\\\"\" x)) sep = \",\") strcat(out \"]\"))");
    r
}

/// The SKILL text that `MaestroOps::list_sessions` builds.
pub open spec fn list_sessions_text() -> Seq<char> {
    strings_to_json_text("maeGetSessions()"@)
}

/// The SKILL text that `MaestroOps::get_analyses` builds.
pub open spec fn get_analyses_text(session: Seq<char>) -> Seq<char> {
    strings_to_json_text(
        "let((setup) setup = car(maeGetSetup(?session "@ + quoted(session)
            + ")) maeGetEnabledAnalysis(setup))"@,
    )
}

/// The SKILL text that `MaestroOps::set_analysis` builds.
pub open spec fn set_analysis_text(
    session: Seq<char>,
    analysis_type: Seq<char>,
    options_skill_alist: Option<Seq<char>>,
    version: VirtuosoVersion,
) -> Seq<char> {
    if version == VirtuosoVersion::IC25 {
        "maeSetAnalysis("@ + quoted(analysis_type) + " ?session "@ + quoted(session)
            + " ?enable t"@ + match options_skill_alist {
            Some(alist) => " ?options `"@ + alist,
            None => Seq::<char>::empty(),
        } + ")"@
    } else {
        "let((setup) setup = car(maeGetSetup(?session "@ + quoted(session)
            + ")) maeSetAnalysis(setup "@ + quoted(analysis_type) + "))"@
    }
}

/// The SKILL text that `MaestroOps::get_result_tests` builds.
pub open spec fn get_result_tests_text() -> Seq<char> {
    strings_to_json_text("maeGetResultTests()"@)
}

/// The SKILL text that `MaestroOps::get_result_outputs` builds.
pub open spec fn get_result_outputs_text(test_name: Seq<char>) -> Seq<char> {
    strings_to_json_text("maeGetResultOutputs(?testName "@ + quoted(test_name) + ")"@)
}

/// The SKILL text that `MaestroOps::get_output_value` builds.
pub open spec fn get_output_value_text(name: Seq<char>, test_name: Seq<char>, corner: Option<Seq<char>>) -> Seq<char> {
    "maeGetOutputValue("@ + quoted(name) + " "@ + quoted(test_name) + match corner {
        Some(c) => " ?cornerName "@ + quoted(c),
        None => Seq::<char>::empty(),
    } + ")"@
}

/// The SKILL text that `MaestroOps::get_history_list` builds.
pub open spec fn get_history_list_text(session: Seq<char>) -> Seq<char> {
    strings_to_json_text("maeGetAllExplorerHistoryNames("@ + quoted(session) + ")"@)
}

pub open spec fn opt_view(o: Option<&str>) -> Option<Seq<char>> {
    match o {
        Some(s) => Some(s@),
        None => None,
    }
}

/// The SKILL text that `MaestroOps::open_session` builds.
pub open spec fn open_session_text(lib: Seq<char>, cell: Seq<char>, view: Seq<char>) -> Seq<char> {
    "maeOpenSetup("@
        + quoted(lib)
        + " "@
        + quoted(cell)
        + " "@
        + quoted(view)
        + ")"@
}

/// The SKILL text that `MaestroOps::close_session` builds.
pub open spec fn close_session_text(session: Seq<char>) -> Seq<char> {
    "maeCloseSession("@
        + quoted(session)
        + " ?forceClose t)"@
}

/// The SKILL text that `MaestroOps::set_var` builds.
pub open spec fn set_var_text(name: Seq<char>, value: Seq<char>) -> Seq<char> {
    "maeSetVar("@
        + quoted(name)
        + " "@
        + quoted(value)
        + ")"@
}

/// The SKILL text that `MaestroOps::get_var` builds.
pub open spec fn get_var_text(name: Seq<char>) -> Seq<char> {
    "maeGetVar("@
        + quoted(name)
        + ")"@
}

/// The SKILL text that `MaestroOps::list_vars` builds.
pub open spec fn list_vars_text() -> Seq<char> {
    "let((vars out sep) vars = asiGetDesignVarList(asiGetCurrentSession()) out = \"[\" sep = \"\" foreach(v vars out = strcat(out sep sprintf(nil \"{\\\"name\\\":\\\"%s\\\",\\\"value\\\":\\\"%s\\\"}\" car(v) cadr(v))) sep = \",\") strcat(out \"]\"))"@
}

/// The SKILL text that `MaestroOps::run_simulation` builds.
pub open spec fn run_simulation_text(session: Seq<char>) -> Seq<char> {
    "maeRunSimulation(?session "@
        + quoted(session)
        + ")"@
}

/// The SKILL text that `MaestroOps::get_outputs` builds.
pub open spec fn get_outputs_text(test_name: Seq<char>) -> Seq<char> {
    "let((outs out sep) outs = maeGetTestOutputs("@
        + quoted(test_name)
        + ") out = \"[\" sep = \"\" foreach(o outs out = strcat(out sep sprintf(nil \"{\\\"name\\\":\\\"%s\\\",\\\"test\\\":\\\"%s\\\",\\\"expr\\\":\\\"%s\\\"}\" car(o) cadr(o) if(caddr(o) then caddr(o) else \"\"))) sep = \",\") strcat(out \"]\"))"@
}

/// The SKILL text that `MaestroOps::add_output` builds.
pub open spec fn add_output_text(output_name: Seq<char>, test_name: Seq<char>, expr: Seq<char>) -> Seq<char> {
    "maeAddOutput("@
        + quoted(output_name)
        + " "@
        + quoted(test_name)
        + " ?expr "@
        + quoted(expr)
        + ")"@
}

/// The SKILL text that `MaestroOps::set_design` builds.
pub open spec fn set_design_text(session: Seq<char>, lib: Seq<char>, cell: Seq<char>, view: Seq<char>) -> Seq<char> {
    "maeSetDesign(?session "@
        + quoted(session)
        + " ?libName "@
        + quoted(lib)
        + " ?cellName "@
        + quoted(cell)
        + " ?viewName "@
        + quoted(view)
        + ")"@
}

/// The SKILL text that `MaestroOps::save_setup` builds.
pub open spec fn save_setup_text(session: Seq<char>) -> Seq<char> {
    "maeSaveSetup(?session "@
        + quoted(session)
        + ")"@
}

/// The SKILL text that `MaestroOps::get_sim_messages` builds.
pub open spec fn get_sim_messages_text(session: Seq<char>) -> Seq<char> {
    "maeGetSimulationMessages(?session "@
        + quoted(session)
        + ")"@
}

/// The SKILL text that `MaestroOps::focused_window_skill` builds.
pub open spec fn focused_window_skill_text() -> Seq<char> {
    "let((cw sess) cw=hiGetCurrentWindow() sess=if(cw cw->davSession nil) list(if(cw hiGetWindowName(cw) nil) sess mapcar(lambda((w) hiGetWindowName(w)) hiGetWindowList()) maeGetSessions() if(sess let((s) s=asiGetSession(sess) if(s asiGetAnalogRunDir(s) nil)) nil)))"@
}

/// The SKILL text that `MaestroOps::run_dir_skill` builds.
pub open spec fn run_dir_skill_text(session: Seq<char>) -> Seq<char> {
    "let((sess) sess=asiGetSession("@
        + quoted(session)
        + ") if(sess asiGetAnalogRunDir(sess) nil))"@
}

/// The SKILL text that `MaestroOps::export_results` builds.
pub open spec fn export_results_text(session: Seq<char>, file_path: Seq<char>) -> Seq<char> {
    "maeExportOutputView(?session "@
        + quoted(session)
        + " ?fileName "@
        + quoted(file_path)
        + " ?view \"Detail\")"@
}

/// The SKILL text that `MaestroOps::open_results` builds.
pub open spec fn open_results_text(history: Seq<char>) -> Seq<char> {
    "maeOpenResults(?history "@
        + quoted(history)
        + ")"@
}

/// The SKILL text that `MaestroOps::close_results` builds.
pub open spec fn close_results_text() -> Seq<char> {
    "maeCloseResults()"@
}

/// The SKILL text that `MaestroOps::get_spec_status` builds.
pub open spec fn get_spec_status_text(name: Seq<char>, test_name: Seq<char>) -> Seq<char> {
    "maeGetSpecStatus("@
        + quoted(name)
        + " "@
        + quoted(test_name)
        + ")"@
}

/// The SKILL text that `MaestroOps::get_current_session` builds.
pub open spec fn get_current_session_text() -> Seq<char> {
    "let((sess) sess = asiGetCurrentSession() if(sess then sess~>name else nil))"@
}

impl MaestroOps {
    /// Returns session handle like `"fnxSession4"`.
    pub fn open_session(&self, lib: &str, cell: &str, view: &str) -> (r: String)
        ensures
            r@ == open_session_text(lib@, cell@, view@),
    {
        let mut r = string_from("maeOpenSetup(");
        push_quoted(&mut r, lib);
        push_str(&mut r, " ");
        push_quoted(&mut r, cell);
        push_str(&mut r, " ");
        push_quoted(&mut r, view);
        push_str(&mut r, ")");
        r
    }

    /// Force-closes the session, cancels any in-flight simulation.
    pub fn close_session(&self, session: &str) -> (r: String)
        ensures
            r@ == close_session_text(session@),
    {
        let mut r = string_from("maeCloseSession(");
        push_quoted(&mut r, session);
        push_str(&mut r, " ?forceClose t)");
        r
    }

    /// Sets a design variable.
    pub fn set_var(&self, name: &str, value: &str) -> (r: String)
        ensures
            r@ == set_var_text(name@, value@),
    {
        let mut r = string_from("maeSetVar(");
        push_quoted(&mut r, name);
        push_str(&mut r, " ");
        push_quoted(&mut r, value);
        push_str(&mut r, ")");
        r
    }

    /// Reads a design variable.
    pub fn get_var(&self, name: &str) -> (r: String)
        ensures
            r@ == get_var_text(name@),
    {
        let mut r = string_from("maeGetVar(");
        push_quoted(&mut r, name);
        push_str(&mut r, ")");
        r
    }

    /// Design variables of the current session as a JSON array of name/value objects.
    pub fn list_vars(&self) -> (r: String)
        ensures
            r@ == list_vars_text(),
    {
        let mut r = string_from("let((vars out sep) vars = asiGetDesignVarList(asiGetCurrentSession()) out = \"[\" sep = \"\" foreach(v vars out = strcat(out sep sprintf(nil \"{\\\"name\\\":\\\"%s\\\",\\\"value\\\":\\\"%s\\\"}\" car(v) cadr(v))) sep = \",\") strcat(out \"]\"))");
        r
    }

    /// Run simulation asynchronously. Returns immediately.
    pub fn run_simulation(&self, session: &str) -> (r: String)
        ensures
            r@ == run_simulation_text(session@),
    {
        let mut r = string_from("maeRunSimulation(?session ");
        push_quoted(&mut r, session);
        push_str(&mut r, ")");
        r
    }

    /// IC23.1: `maeGetTestOutputs` returns list-of-lists; elements accessed via car/cadr/caddr.
    pub fn get_outputs(&self, test_name: &str) -> (r: String)
        ensures
            r@ == get_outputs_text(test_name@),
    {
        let mut r = string_from("let((outs out sep) outs = maeGetTestOutputs(");
        push_quoted(&mut r, test_name);
        push_str(&mut r, ") out = \"[\" sep = \"\" foreach(o outs out = strcat(out sep sprintf(nil \"{\\\"name\\\":\\\"%s\\\",\\\"test\\\":\\\"%s\\\",\\\"expr\\\":\\\"%s\\\"}\" car(o) cadr(o) if(caddr(o) then caddr(o) else \"\"))) sep = \",\") strcat(out \"]\"))");
        r
    }

    /// Adds an output expression to a test.
    pub fn add_output(&self, output_name: &str, test_name: &str, expr: &str) -> (r: String)
        ensures
            r@ == add_output_text(output_name@, test_name@, expr@),
    {
        let mut r = string_from("maeAddOutput(");
        push_quoted(&mut r, output_name);
        push_str(&mut r, " ");
        push_quoted(&mut r, test_name);
        push_str(&mut r, " ?expr ");
        push_quoted(&mut r, expr);
        push_str(&mut r, ")");
        r
    }

    /// Points the session at lib/cell/view.
    pub fn set_design(&self, session: &str, lib: &str, cell: &str, view: &str) -> (r: String)
        ensures
            r@ == set_design_text(session@, lib@, cell@, view@),
    {
        let mut r = string_from("maeSetDesign(?session ");
        push_quoted(&mut r, session);
        push_str(&mut r, " ?libName ");
        push_quoted(&mut r, lib);
        push_str(&mut r, " ?cellName ");
        push_quoted(&mut r, cell);
        push_str(&mut r, " ?viewName ");
        push_quoted(&mut r, view);
        push_str(&mut r, ")");
        r
    }

    /// Saves the session setup.
    pub fn save_setup(&self, session: &str) -> (r: String)
        ensures
            r@ == save_setup_text(session@),
    {
        let mut r = string_from("maeSaveSetup(?session ");
        push_quoted(&mut r, session);
        push_str(&mut r, ")");
        r
    }

    /// Simulation messages (errors/warnings) of the last run.
    pub fn get_sim_messages(&self, session: &str) -> (r: String)
        ensures
            r@ == get_sim_messages_text(session@),
    {
        let mut r = string_from("maeGetSimulationMessages(?session ");
        push_quoted(&mut r, session);
        push_str(&mut r, ")");
        r
    }

    /// Get focused ADE window name, davSession, all window names, sessions, and run_dir in one RTT.
    ///
    /// Returns a 5-element SKILL list:
    ///   (title davSession (all_titles...) (sessions...) run_dir_or_nil)
    pub fn focused_window_skill(&self) -> (r: String)
        ensures
            r@ == focused_window_skill_text(),
    {
        let mut r = string_from("let((cw sess) cw=hiGetCurrentWindow() sess=if(cw cw->davSession nil) list(if(cw hiGetWindowName(cw) nil) sess mapcar(lambda((w) hiGetWindowName(w)) hiGetWindowList()) maeGetSessions() if(sess let((s) s=asiGetSession(sess) if(s asiGetAnalogRunDir(s) nil)) nil)))");
        r
    }

    /// Get simulation run directory for a maestro session via asiGetAnalogRunDir.
    pub fn run_dir_skill(&self, session: &str) -> (r: String)
        ensures
            r@ == run_dir_skill_text(session@),
    {
        let mut r = string_from("let((sess) sess=asiGetSession(");
        push_quoted(&mut r, session);
        push_str(&mut r, ") if(sess asiGetAnalogRunDir(sess) nil))");
        r
    }

    /// Export results to CSV.
    pub fn export_results(&self, session: &str, file_path: &str) -> (r: String)
        ensures
            r@ == export_results_text(session@, file_path@),
    {
        let mut r = string_from("maeExportOutputView(?session ");
        push_quoted(&mut r, session);
        push_str(&mut r, " ?fileName ");
        push_quoted(&mut r, file_path);
        push_str(&mut r, " ?view \"Detail\")");
        r
    }

    /// Opens a history run for result reading.
    pub fn open_results(&self, history: &str) -> (r: String)
        ensures
            r@ == open_results_text(history@),
    {
        let mut r = string_from("maeOpenResults(?history ");
        push_quoted(&mut r, history);
        push_str(&mut r, ")");
        r
    }

    /// Closes the open results.
    pub fn close_results(&self) -> (r: String)
        ensures
            r@ == close_results_text(),
    {
        let mut r = string_from("maeCloseResults()");
        r
    }

    /// Spec pass/fail status of an output.
    pub fn get_spec_status(&self, name: &str, test_name: &str) -> (r: String)
        ensures
            r@ == get_spec_status_text(name@, test_name@),
    {
        let mut r = string_from("maeGetSpecStatus(");
        push_quoted(&mut r, name);
        push_str(&mut r, " ");
        push_quoted(&mut r, test_name);
        push_str(&mut r, ")");
        r
    }

    /// Name of the current session, or nil.
    pub fn get_current_session(&self) -> (r: String)
        ensures
            r@ == get_current_session_text(),
    {
        let mut r = string_from("let((sess) sess = asiGetCurrentSession() if(sess then sess~>name else nil))");
        r
    }

    /// Names of the open Maestro sessions, as a JSON string array.
    pub fn list_sessions(&self) -> (r: String)
        ensures
            r@ == list_sessions_text(),
    {
        skill_strings_to_json("maeGetSessions()")
    }

    /// Get enabled analyses. Always returns a JSON string array; empty → `[]` (not an error).
    pub fn get_analyses(&self, session: &str) -> (r: String)
        ensures
            r@ == get_analyses_text(session@),
    {
        let mut inner = string_from("let((setup) setup = car(maeGetSetup(?session ");
        push_quoted(&mut inner, session);
        push_str(&mut inner, ")) maeGetEnabledAnalysis(setup))");
        skill_strings_to_json(inner.as_str())
    }

    /// Enable an analysis type — version-aware.
    ///
    /// IC23: `maeSetAnalysis(setupName analysisType)`; options are not used.
    /// IC25: `maeSetAnalysis(analysisType ?session s ?enable t ?options \`(...))`.
    pub fn set_analysis(
        &self,
        session: &str,
        analysis_type: &str,
        options_skill_alist: Option<&str>,
        version: VirtuosoVersion,
    ) -> (r: String)
        ensures
            r@ == set_analysis_text(session@, analysis_type@, opt_view(options_skill_alist), version),
    {
        if version.is_ic25() {
            let mut r = string_from("maeSetAnalysis(");
            push_quoted(&mut r, analysis_type);
            push_str(&mut r, " ?session ");
            push_quoted(&mut r, session);
            push_str(&mut r, " ?enable t");
            match options_skill_alist {
                Some(alist) => {
                    push_str(&mut r, " ?options `");
                    push_str(&mut r, alist);
                },
                None => {},
            }
            push_str(&mut r, ")");
            r
        } else {
            let mut r = string_from("let((setup) setup = car(maeGetSetup(?session ");
            push_quoted(&mut r, session);
            push_str(&mut r, ")) maeSetAnalysis(setup ");
            push_quoted(&mut r, analysis_type);
            push_str(&mut r, "))");
            r
        }
    }

    /// List all test names that have results in the current history.
    pub fn get_result_tests(&self) -> (r: String)
        ensures
            r@ == get_result_tests_text(),
    {
        skill_strings_to_json("maeGetResultTests()")
    }

    /// Output names available for a test, as a JSON string array.
    pub fn get_result_outputs(&self, test_name: &str) -> (r: String)
        ensures
            r@ == get_result_outputs_text(test_name@),
    {
        let mut inner = string_from("maeGetResultOutputs(?testName ");
        push_quoted(&mut inner, test_name);
        push_str(&mut inner, ")");
        skill_strings_to_json(inner.as_str())
    }

    /// Value of an output for a test, optionally at a named corner.
    pub fn get_output_value(&self, name: &str, test_name: &str, corner: Option<&str>) -> (r: String)
        ensures
            r@ == get_output_value_text(name@, test_name@, opt_view(corner)),
    {
        let mut r = string_from("maeGetOutputValue(");
        push_quoted(&mut r, name);
        push_str(&mut r, " ");
        push_quoted(&mut r, test_name);
        match corner {
            Some(c) => {
                push_str(&mut r, " ?cornerName ");
                push_quoted(&mut r, c);
            },
            None => {},
        }
        push_str(&mut r, ")");
        r
    }

    /// List available history runs for a Maestro session, as a JSON string array.
    pub fn get_history_list(&self, session: &str) -> (r: String)
        ensures
            r@ == get_history_list_text(session@),
    {
        let mut inner = string_from("maeGetAllExplorerHistoryNames(");
        push_quoted(&mut inner, session);
        push_str(&mut inner, ")");
        skill_strings_to_json(inner.as_str())
    }
}

} // verus!

verus! {

/// Asking for a corner's output value is asking for the output value with
/// that corner named: the query for corner `c` is the corner-less query with
/// ` ?cornerName "c"` before its closing parenthesis, and the corner-less
/// query names the output and then the test.
pub proof fn law_output_value_names_corner(name: Seq<char>, test_name: Seq<char>, c: Seq<char>)
    ensures
        get_output_value_text(name, test_name, Some(c))
            == get_output_value_text(name, test_name, None).drop_last() + " ?cornerName "@ + quoted(c) + ")"@,
        get_output_value_text(name, test_name, Some(c)) != get_output_value_text(name, test_name, None),
        crate::chars::starts_with(get_output_value_text(name, test_name, None),
            "maeGetOutputValue("@ + quoted(name) + " "@ + quoted(test_name)),
        get_output_value_text(name, test_name, None).last() == ')',
{
    reveal_strlit(" ?cornerName ");
    reveal_strlit(")");
    let base = "maeGetOutputValue("@ + quoted(name) + " "@ + quoted(test_name);
    assert(get_output_value_text(name, test_name, None) =~= base + ")"@);
    assert((base + ")"@).drop_last() =~= base);
    assert(get_output_value_text(name, test_name, Some(c)) =~= base + " ?cornerName "@ + quoted(c) + ")"@);
    assert((base + ")"@).take(base.len() as int) =~= base);
    assert(get_output_value_text(name, test_name, Some(c)).len() > get_output_value_text(name, test_name, None).len());
}

} // verus!

verus! {

/// Each Maestro call passes its arguments in the order and under the
/// keywords the API takes: the setup's library, cell and view in that
/// order; a variable's name then its value; an output's name, its test and
/// `?expr` with the expression; the design under `?session`, `?libName`,
/// `?cellName`, `?viewName`; the export file under `?fileName`; a spec's
/// output then its test; and an analysis for the session it names.
pub proof fn law_maestro_arguments_in_place(session: Seq<char>, lib: Seq<char>, cell: Seq<char>, view: Seq<char>,
    name: Seq<char>, value: Seq<char>, test_name: Seq<char>, expr: Seq<char>, path: Seq<char>,
    analysis_type: Seq<char>, alist: Seq<char>)
    ensures
        crate::chars::contains(open_session_text(lib, cell, view), quoted(lib) + " "@ + quoted(cell) + " "@ + quoted(view)),
        crate::chars::contains(set_var_text(name, value), "maeSetVar("@ + quoted(name) + " "@ + quoted(value)),
        crate::chars::contains(add_output_text(name, test_name, expr),
            quoted(name) + " "@ + quoted(test_name) + " ?expr "@ + quoted(expr)),
        crate::chars::contains(set_design_text(session, lib, cell, view),
            quoted(session) + " ?libName "@ + quoted(lib) + " ?cellName "@ + quoted(cell) + " ?viewName "@ + quoted(view)),
        crate::chars::contains(export_results_text(session, path), quoted(session) + " ?fileName "@ + quoted(path)),
        crate::chars::contains(get_spec_status_text(name, test_name), "maeGetSpecStatus("@ + quoted(name) + " "@ + quoted(test_name)),
        crate::chars::contains(set_analysis_text(session, analysis_type, Some(alist), VirtuosoVersion::IC25),
            quoted(analysis_type) + " ?session "@ + quoted(session) + " ?enable t"@ + " ?options `"@ + alist),
        crate::chars::contains(set_analysis_text(session, analysis_type, None, VirtuosoVersion::IC25),
            quoted(analysis_type) + " ?session "@ + quoted(session) + " ?enable t"@),
        crate::chars::contains(set_analysis_text(session, analysis_type, Some(alist), VirtuosoVersion::IC23),
            quoted(session) + ")) maeSetAnalysis(setup "@ + quoted(analysis_type)),
{
    let e = Seq::<char>::empty();
    let n1 = quoted(lib) + " "@ + quoted(cell) + " "@ + quoted(view);
    assert(open_session_text(lib, cell, view) =~= "maeOpenSetup("@ + n1 + ")"@);
    crate::chars::lemma_contains_middle("maeOpenSetup("@, n1, ")"@);
    let n2 = "maeSetVar("@ + quoted(name) + " "@ + quoted(value);
    assert(set_var_text(name, value) =~= e + n2 + ")"@);
    crate::chars::lemma_contains_middle(e, n2, ")"@);
    let n3 = quoted(name) + " "@ + quoted(test_name) + " ?expr "@ + quoted(expr);
    assert(add_output_text(name, test_name, expr) =~= "maeAddOutput("@ + n3 + ")"@);
    crate::chars::lemma_contains_middle("maeAddOutput("@, n3, ")"@);
    let n4 = quoted(session) + " ?libName "@ + quoted(lib) + " ?cellName "@ + quoted(cell) + " ?viewName "@ + quoted(view);
    assert(set_design_text(session, lib, cell, view) =~= "maeSetDesign(?session "@ + n4 + ")"@);
    crate::chars::lemma_contains_middle("maeSetDesign(?session "@, n4, ")"@);
    let n5 = quoted(session) + " ?fileName "@ + quoted(path);
    assert(export_results_text(session, path) =~= "maeExportOutputView(?session "@ + n5 + " ?view \"Detail\")"@);
    crate::chars::lemma_contains_middle("maeExportOutputView(?session "@, n5, " ?view \"Detail\")"@);
    let n6 = "maeGetSpecStatus("@ + quoted(name) + " "@ + quoted(test_name);
    assert(get_spec_status_text(name, test_name) =~= e + n6 + ")"@);
    crate::chars::lemma_contains_middle(e, n6, ")"@);
    let n7 = quoted(analysis_type) + " ?session "@ + quoted(session) + " ?enable t"@ + " ?options `"@ + alist;
    assert(set_analysis_text(session, analysis_type, Some(alist), VirtuosoVersion::IC25) =~= "maeSetAnalysis("@ + n7 + ")"@);
    crate::chars::lemma_contains_middle("maeSetAnalysis("@, n7, ")"@);
    let n8 = quoted(analysis_type) + " ?session "@ + quoted(session) + " ?enable t"@;
    assert(set_analysis_text(session, analysis_type, None, VirtuosoVersion::IC25) =~= "maeSetAnalysis("@ + n8 + ")"@);
    crate::chars::lemma_contains_middle("maeSetAnalysis("@, n8, ")"@);
    let n9 = quoted(session) + ")) maeSetAnalysis(setup "@ + quoted(analysis_type);
    assert(set_analysis_text(session, analysis_type, Some(alist), VirtuosoVersion::IC23)
        =~= "let((setup) setup = car(maeGetSetup(?session "@ + n9 + "))"@);
    crate::chars::lemma_contains_middle("let((setup) setup = car(maeGetSetup(?session "@, n9, "))"@);
}

} // verus!
