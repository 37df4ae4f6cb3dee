use vstd::prelude::*;
use crate::text::{
    escape, quoted, indented_lines, push_char, push_quoted, push_escaped, push_str, push_indented_lines,
    string_from, str_eq,
};
use crate::number::{is_float_text, str_is_float};
use crate::chars::{
    trim, trim_char, trim_chars, trim_char_chars, strings_view, rows_view, clone_strings,
    lemma_strings_view_push, lemma_rows_view_push, ws_pred,
};
use crate::text::{chars_of, joined, string_of};

verus! {

// ───────────────────────── configuration model ─────────────────────────

/// A parameter value as it came from a JSON corner/analysis configuration.
/// `Number` and `Other` hold the JSON text of the value (`1e-9`, `true`, …).
#[derive(Clone, Debug)]
pub enum ParamValue {
    Str(String),
    Number(String),
    Other(String),
}

/// The design a corner run simulates.
#[derive(Clone, Debug)]
pub struct DesignTarget {
    pub lib: String,
    pub cell: String,
    pub view: String,
}

/// An analysis and its parameters, in the order the configuration lists them.
#[derive(Clone, Debug)]
pub struct AnalysisConfig {
    pub analysis_type: String,
    pub params: Vec<(String, ParamValue)>,
}

/// One process corner. `temp` is the decimal text of the temperature.
#[derive(Clone, Debug)]
pub struct Corner {
    pub name: String,
    pub section: String,
    pub temp: String,
    pub vars: Vec<(String, ParamValue)>,
}

/// A named measurement expression.
#[derive(Clone, Debug)]
pub struct Measure {
    pub name: String,
    pub expr: String,
}

/// A corner sweep: design, model file, analysis, corners and measurements.
#[derive(Clone, Debug)]
pub struct CornerConfig {
    pub simulator: Option<String>,
    pub design: DesignTarget,
    pub model_file: String,
    pub analysis: AnalysisConfig,
    pub corners: Vec<Corner>,
    pub measures: Vec<Measure>,
}

// ───────────────────────── simple builders ─────────────────────────

/// The Ocean code that `setup_skill` builds.
pub open spec fn setup_skill_text(lib: Seq<char>, cell: Seq<char>, view: Seq<char>, simulator: Seq<char>) -> Seq<char> {
    "unless(simulator() == '"@ + simulator + " simulator('"@ + simulator + "))\ndesign("@ + quoted(lib)
        + " "@ + quoted(cell) + " "@ + quoted(view) + ")\nresultsDir()"@
}

/// Selects the simulator (only when it is not already the current one, so
/// session state such as model files survives), selects the design and
/// yields the results directory.
pub fn setup_skill(lib: &str, cell: &str, view: &str, simulator: &str) -> (r: String)
    ensures
        r@ == setup_skill_text(lib@, cell@, view@, simulator@),
{
    let mut r = string_from("unless(simulator() == '");
    push_str(&mut r, simulator);
    push_str(&mut r, " simulator('");
    push_str(&mut r, simulator);
    push_str(&mut r, "))\ndesign(");
    push_quoted(&mut r, lib);
    push_str(&mut r, " ");
    push_quoted(&mut r, cell);
    push_str(&mut r, " ");
    push_quoted(&mut r, view);
    push_str(&mut r, ")\nresultsDir()");
    r
}

/// The Ocean code that runs the simulation.
pub fn run_skill() -> (r: String)
    ensures
        r@ == "run()"@,
{
    string_from("run()")
}

/// The Ocean code that `measure_skill` builds: one expression is evaluated as
/// is, several are gathered into a list.
pub open spec fn measure_skill_text(analysis_type: Seq<char>, exprs: Seq<String>) -> Seq<char> {
    if exprs.len() == 1 {
        "selectResult('"@ + analysis_type + ")\n"@ + exprs[0]@
    } else {
        "selectResult('"@ + analysis_type + ")\nlist(\n"@ + indented_lines(exprs, "  "@) + "\n)"@
    }
}

/// Selects the analysis results and evaluates the measurement expressions.
pub fn measure_skill(analysis_type: &str, exprs: &[String]) -> (r: String)
    ensures
        r@ == measure_skill_text(analysis_type@, exprs@),
{
    let mut r = string_from("selectResult('");
    push_str(&mut r, analysis_type);
    if exprs.len() == 1 {
        push_str(&mut r, ")\n");
        push_str(&mut r, exprs[0].as_str());
    } else {
        push_str(&mut r, ")\nlist(\n");
        push_indented_lines(&mut r, exprs, "  ");
        push_str(&mut r, "\n)");
    }
    r
}

// ───────────────────────── analysis statements ─────────────────────────

/// Whether a parameter value is written unquoted: the booleans `t`/`nil`
/// and anything Rust reads as an `f64`.
pub open spec fn bare_value(v: Seq<char>) -> bool {
    v == "t"@ || v == "nil"@ || is_float_text(v)
}

/// ` ?key value` with the value quoted unless it is a boolean or a number.
pub open spec fn simple_param_text(k: Seq<char>, v: Seq<char>) -> Seq<char> {
    if bare_value(v) {
        " ?"@ + k + " "@ + v
    } else {
        " ?"@ + k + " \""@ + v + "\""@
    }
}

/// The parameters in the given order.
pub open spec fn simple_params_text(params: Seq<(String, String)>) -> Seq<char>
    decreases params.len(),
{
    if params.len() == 0 {
        Seq::<char>::empty()
    } else {
        simple_params_text(params.drop_last()) + simple_param_text(params.last().0@, params.last().1@)
    }
}

/// The Ocean code that `analysis_skill_simple` builds.
pub open spec fn analysis_skill_simple_text(typ: Seq<char>, params: Seq<(String, String)>) -> Seq<char> {
    "analysis('"@ + typ + simple_params_text(params) + ")"@
}

fn push_simple_param(r: &mut String, k: &str, v: &str)
    ensures
        final(r)@ == old(r)@ + simple_param_text(k@, v@),
{
    let bare = str_eq(v, "t") || str_eq(v, "nil") || str_is_float(v);
    push_str(r, " ?");
    push_str(r, k);
    if bare {
        push_str(r, " ");
        push_str(r, v);
    } else {
        push_str(r, " \"");
        push_str(r, v);
        push_str(r, "\"");
    }
}

/// `analysis('typ ?k v ...)` for string parameters, in the order given.
/// Values `t`, `nil` and numbers are written bare; others are quoted as they
/// are (not escaped).
pub fn analysis_skill_simple(typ: &str, params: &[(String, String)]) -> (r: String)
    ensures
        r@ == analysis_skill_simple_text(typ@, params@),
{
    let mut r = string_from("analysis('");
    push_str(&mut r, typ);
    let ghost start = r@;
    for i in 0..params.len()
        invariant
            r@ == start + simple_params_text(params@.take(i as int)),
    {
        let (k, v) = &params[i];
        push_simple_param(&mut r, k.as_str(), v.as_str());
        assert(params@.take(i + 1).drop_last() == params@.take(i as int));
    }
    assert(params@.take(params.len() as int) == params@);
    push_str(&mut r, ")");
    r
}

/// ` ?key value` for a configuration parameter: strings and other values are
/// quoted (not escaped), numbers are bare.
pub open spec fn config_param_text(k: Seq<char>, v: ParamValue) -> Seq<char> {
    match v {
        ParamValue::Str(s) => " ?"@ + k + " \""@ + s@ + "\""@,
        ParamValue::Number(n) => " ?"@ + k + " "@ + n@,
        ParamValue::Other(o) => " ?"@ + k + " \""@ + o@ + "\""@,
    }
}

/// The configuration parameters in order.
pub open spec fn config_params_text(params: Seq<(String, ParamValue)>) -> Seq<char>
    decreases params.len(),
{
    if params.len() == 0 {
        Seq::<char>::empty()
    } else {
        config_params_text(params.drop_last()) + config_param_text(params.last().0@, params.last().1)
    }
}

/// The Ocean code that `analysis_skill` builds.
pub open spec fn analysis_skill_text(config: AnalysisConfig) -> Seq<char> {
    "analysis('"@ + config.analysis_type@ + config_params_text(config.params@) + ")"@
}

fn push_config_param(r: &mut String, k: &str, v: &ParamValue)
    ensures
        final(r)@ == old(r)@ + config_param_text(k@, *v),
{
    push_str(r, " ?");
    push_str(r, k);
    match v {
        ParamValue::Str(s) => {
            push_str(r, " \"");
            push_str(r, s.as_str());
            push_str(r, "\"");
        },
        ParamValue::Number(n) => {
            push_str(r, " ");
            push_str(r, n.as_str());
        },
        ParamValue::Other(o) => {
            push_str(r, " \"");
            push_str(r, o.as_str());
            push_str(r, "\"");
        },
    }
}

/// `analysis('type ?k v ...)` for a configured analysis.
pub fn analysis_skill(config: &AnalysisConfig) -> (r: String)
    ensures
        r@ == analysis_skill_text(*config),
{
    let mut r = string_from("analysis('");
    push_str(&mut r, config.analysis_type.as_str());
    let ghost start = r@;
    for i in 0..config.params.len()
        invariant
            r@ == start + config_params_text(config.params@.take(i as int)),
    {
        let (k, v) = &config.params[i];
        push_config_param(&mut r, k.as_str(), v);
        assert(config.params@.take(i + 1).drop_last() == config.params@.take(i as int));
    }
    assert(config.params@.take(config.params.len() as int) == config.params@);
    push_str(&mut r, ")");
    r
}

// ───────────────────────── corner runs ─────────────────────────

/// The SKILL text of a corner variable value.
pub open spec fn corner_var_value_text(v: ParamValue) -> Seq<char> {
    match v {
        ParamValue::Number(n) => n@,
        ParamValue::Str(s) => "\""@ + s@ + "\""@,
        ParamValue::Other(o) => o@,
    }
}

/// `  desVar("k" v)` lines, one per variable, each ending in a newline.
pub open spec fn corner_vars_text(vars: Seq<(String, ParamValue)>) -> Seq<char>
    decreases vars.len(),
{
    if vars.len() == 0 {
        Seq::<char>::empty()
    } else {
        corner_vars_text(vars.drop_last()) + "  desVar(\""@ + vars.last().0@ + "\" "@
            + corner_var_value_text(vars.last().1) + ")\n"@
    }
}

/// The measurement expressions, indented, one per line.
pub open spec fn corner_measures_text(measures: Seq<Measure>) -> Seq<char>
    decreases measures.len(),
{
    if measures.len() == 0 {
        Seq::<char>::empty()
    } else if measures.len() == 1 {
        "      "@ + measures[0].expr@
    } else {
        corner_measures_text(measures.drop_last()) + seq!['\n'] + "      "@ + measures.last().expr@
    }
}

/// The block that runs one corner and conses its results.
pub open spec fn corner_block_text(c: Corner, model_file: Seq<char>, analysis_type: Seq<char>, measures: Seq<Measure>) -> Seq<char> {
    "  ;; "@ + escape(c.name@) + "\n  modelFile('("@ + quoted(model_file) + " \"\") "@ + quoted(c.section@)
        + ")\n  temp("@ + c.temp@ + ")\n"@ + corner_vars_text(c.vars@) + "  run()\n  selectResult('"@
        + analysis_type + ")\n  results = cons(list("@ + quoted(c.name@) + " "@ + c.temp@ + "\n"@
        + corner_measures_text(measures) + "\n  ) results)\n"@
}

/// The corner blocks in order.
pub open spec fn corner_blocks_text(corners: Seq<Corner>, model_file: Seq<char>, analysis_type: Seq<char>, measures: Seq<Measure>) -> Seq<char>
    decreases corners.len(),
{
    if corners.len() == 0 {
        Seq::<char>::empty()
    } else {
        corner_blocks_text(corners.drop_last(), model_file, analysis_type, measures)
            + corner_block_text(corners.last(), model_file, analysis_type, measures)
    }
}

/// The simulator name: the configured one, `spectre` by default.
pub open spec fn simulator_name(config: CornerConfig) -> Seq<char> {
    match config.simulator {
        Some(s) => s@,
        None => "spectre"@,
    }
}

/// The Ocean code that `corner_skill` builds.
pub open spec fn corner_skill_text(config: CornerConfig) -> Seq<char> {
    "simulator('"@ + simulator_name(config) + ")\ndesign("@ + quoted(config.design.lib@) + " "@
        + quoted(config.design.cell@) + " "@ + quoted(config.design.view@) + ")\n"@
        + analysis_skill_text(config.analysis) + "\n"@ + "let((results)\n  results = nil\n"@
        + corner_blocks_text(config.corners@, config.model_file@, config.analysis.analysis_type@, config.measures@)
        + "  reverse(results)\n)"@
}

fn push_corner_vars(r: &mut String, vars: &Vec<(String, ParamValue)>)
    ensures
        final(r)@ == old(r)@ + corner_vars_text(vars@),
{
    let ghost start = r@;
    for i in 0..vars.len()
        invariant
            r@ == start + corner_vars_text(vars@.take(i as int)),
    {
        let (k, v) = &vars[i];
        push_str(r, "  desVar(\"");
        push_str(r, k.as_str());
        push_str(r, "\" ");
        match v {
            ParamValue::Number(n) => push_str(r, n.as_str()),
            ParamValue::Str(s) => {
                push_str(r, "\"");
                push_str(r, s.as_str());
                push_str(r, "\"");
            },
            ParamValue::Other(o) => push_str(r, o.as_str()),
        }
        push_str(r, ")\n");
        assert(vars@.take(i + 1).drop_last() == vars@.take(i as int));
    }
    assert(vars@.take(vars.len() as int) == vars@);
}

fn push_corner_measures(r: &mut String, measures: &Vec<Measure>)
    ensures
        final(r)@ == old(r)@ + corner_measures_text(measures@),
{
    let ghost start = r@;
    for i in 0..measures.len()
        invariant
            r@ == start + corner_measures_text(measures@.take(i as int)),
    {
        if i > 0 {
            push_char(r, '\n');
        }
        push_str(r, "      ");
        push_str(r, measures[i].expr.as_str());
        assert(measures@.take(i + 1).drop_last() == measures@.take(i as int));
        assert(measures@.take(i + 1).last() == measures@[i as int]);
        if i == 0 {
            assert(measures@.take(1) == seq![measures@[0]]);
        }
    }
    assert(measures@.take(measures.len() as int) == measures@);
}

#[verifier::spinoff_prover]
#[verifier::rlimit(40)]
fn push_corner_block(r: &mut String, c: &Corner, model_file: &str, analysis_type: &str, measures: &Vec<Measure>)
    ensures
        final(r)@ == old(r)@ + corner_block_text(*c, model_file@, analysis_type@, measures@),
{
    push_str(r, "  ;; ");
    push_escaped(r, c.name.as_str());
    push_str(r, "\n  modelFile('(");
    push_quoted(r, model_file);
    push_str(r, " \"\") ");
    push_quoted(r, c.section.as_str());
    push_str(r, ")\n  temp(");
    push_str(r, c.temp.as_str());
    push_str(r, ")\n");
    push_corner_vars(r, &c.vars);
    push_str(r, "  run()\n  selectResult('");
    push_str(r, analysis_type);
    push_str(r, ")\n  results = cons(list(");
    push_quoted(r, c.name.as_str());
    push_str(r, " ");
    push_str(r, c.temp.as_str());
    push_str(r, "\n");
    push_corner_measures(r, measures);
    push_str(r, "\n  ) results)\n");
}

/// The Ocean code that simulates every corner (model section, temperature
/// and variables) and collects `(name temp measures...)` per corner.
pub fn corner_skill(config: &CornerConfig) -> (r: String)
    ensures
        r@ == corner_skill_text(*config),
{
    let mut r = string_from("simulator('");
    match &config.simulator {
        Some(s) => push_str(&mut r, s.as_str()),
        None => push_str(&mut r, "spectre"),
    }
    push_str(&mut r, ")\ndesign(");
    push_quoted(&mut r, config.design.lib.as_str());
    push_str(&mut r, " ");
    push_quoted(&mut r, config.design.cell.as_str());
    push_str(&mut r, " ");
    push_quoted(&mut r, config.design.view.as_str());
    push_str(&mut r, ")\n");
    let analysis = analysis_skill(&config.analysis);
    push_str(&mut r, analysis.as_str());
    push_str(&mut r, "\n");
    push_str(&mut r, "let((results)\n  results = nil\n");
    let ghost start = r@;
    let ghost mf = config.model_file@;
    let ghost at = config.analysis.analysis_type@;
    for i in 0..config.corners.len()
        invariant
            r@ == start + corner_blocks_text(config.corners@.take(i as int), mf, at, config.measures@),
            mf == config.model_file@,
            at == config.analysis.analysis_type@,
    {
        push_corner_block(
            &mut r,
            &config.corners[i],
            config.model_file.as_str(),
            config.analysis.analysis_type.as_str(),
            &config.measures,
        );
        assert(config.corners@.take(i + 1).drop_last() == config.corners@.take(i as int));
    }
    assert(config.corners@.take(config.corners.len() as int) == config.corners@);
    push_str(&mut r, "  reverse(results)\n)");
    r
}

// ───────────────────────── sweeps ─────────────────────────

/// The values, separated by single spaces.
pub open spec fn spaced_text(items: Seq<String>) -> Seq<char>
    decreases items.len(),
{
    if items.len() == 0 {
        Seq::<char>::empty()
    } else if items.len() == 1 {
        items[0]@
    } else {
        spaced_text(items.drop_last()) + " "@ + items.last()@
    }
}

/// The Ocean code that `sweep_skill_from_texts` builds.
pub open spec fn sweep_skill_text(var: Seq<char>, value_texts: Seq<String>, analysis_type: Seq<char>, measure_exprs: Seq<String>) -> Seq<char> {
    "let((results)\n  results = nil\n  foreach(val '("@ + spaced_text(value_texts) + ")\n    desVar("@
        + quoted(var) + " val)\n    run()\n    selectResult('"@ + analysis_type
        + ")\n    results = cons(list(val\n"@ + indented_lines(measure_exprs, "      "@)
        + "\n    ) results)\n  )\n  reverse(results)\n)"@
}

/// The Ocean code that sets `var` to each value in turn (values given as
/// their SKILL number texts), runs, and collects `(val measures...)`.
pub fn sweep_skill_from_texts(var: &str, value_texts: &[String], analysis_type: &str, measure_exprs: &[String]) -> (r: String)
    ensures
        r@ == sweep_skill_text(var@, value_texts@, analysis_type@, measure_exprs@),
{
    let mut r = string_from("let((results)\n  results = nil\n  foreach(val '(");
    let ghost start = r@;
    for i in 0..value_texts.len()
        invariant
            r@ == start + spaced_text(value_texts@.take(i as int)),
    {
        if i > 0 {
            push_str(&mut r, " ");
        }
        push_str(&mut r, value_texts[i].as_str());
        assert(value_texts@.take(i + 1).drop_last() == value_texts@.take(i as int));
        assert(value_texts@.take(i + 1).last() == value_texts@[i as int]);
        if i == 0 {
            assert(value_texts@.take(1) == seq![value_texts@[0]]);
        }
    }
    assert(value_texts@.take(value_texts.len() as int) == value_texts@);
    push_str(&mut r, ")\n    desVar(");
    push_quoted(&mut r, var);
    push_str(&mut r, " val)\n    run()\n    selectResult('");
    push_str(&mut r, analysis_type);
    push_str(&mut r, ")\n    results = cons(list(val\n");
    push_indented_lines(&mut r, measure_exprs, "      ");
    push_str(&mut r, "\n    ) results)\n  )\n  reverse(results)\n)");
    r
}

} // verus!

verus! {

// ───────────────────────── reading SKILL list results ─────────────────────────

/// A scalar of a SKILL list result: trimmed, then without surrounding quotes.
pub open spec fn list_token(t: Seq<char>) -> Seq<char> {
    trim_char(trim(t), '"')
}

/// The scanner state: nesting depth, the current row, the current token and
/// the rows collected so far.
pub type ListScan = (int, Seq<Seq<char>>, Seq<char>, Seq<Seq<Seq<char>>>);

/// Ends the current token: a non-empty token joins the row.
pub open spec fn flush_token(row: Seq<Seq<char>>, tok: Seq<char>) -> (Seq<Seq<char>>, Seq<char>) {
    if tok.len() > 0 {
        (row.push(list_token(tok)), Seq::<char>::empty())
    } else {
        (row, tok)
    }
}

/// One character of the scan: `(` opens the outer list (depth 1) or starts a
/// row (depth 2); `)` at depth 1 ends a row, which is kept when non-empty;
/// `)` at depth 0 ends the outer list and keeps a flat row when no row was
/// kept before; spaces, tabs and newlines end a token; deeper parentheses and
/// every other character belong to the token.
pub open spec fn list_step(st: ListScan, ch: char) -> ListScan {
    let (d, row, tok, res) = st;
    if ch == '(' {
        if d + 1 == 1 {
            (d + 1, row, tok, res)
        } else if d + 1 == 2 {
            (d + 1, Seq::<Seq<char>>::empty(), tok, res)
        } else {
            (d + 1, row, tok.push(ch), res)
        }
    } else if ch == ')' {
        if d - 1 == 1 {
            let (row2, tok2) = flush_token(row, tok);
            (d - 1, row2, tok2, if row2.len() > 0 { res.push(row2) } else { res })
        } else if d - 1 == 0 {
            let (row2, tok2) = flush_token(row, tok);
            (d - 1, row2, tok2, if row2.len() > 0 && res.len() == 0 { res.push(row2) } else { res })
        } else {
            (d - 1, row, tok.push(ch), res)
        }
    } else if ch == ' ' || ch == '\t' || ch == '\n' {
        let (row2, tok2) = flush_token(row, tok);
        (d, row2, tok2, res)
    } else {
        (d, row, tok.push(ch), res)
    }
}

/// The scanner state after reading `cs`.
pub open spec fn list_scan(cs: Seq<char>) -> ListScan
    decreases cs.len(),
{
    if cs.len() == 0 {
        (0, Seq::<Seq<char>>::empty(), Seq::<char>::empty(), Seq::<Seq<Seq<char>>>::empty())
    } else {
        list_step(list_scan(cs.drop_last()), cs.last())
    }
}

/// What `parse_skill_list` returns for `s`: nothing for empty or `nil`
/// output; otherwise the rows the scan collects, or, when there are none and
/// the output is not a list, the output itself as a single value. For a list
/// of lists of atoms these rows are the inner lists' scalars, in order
/// (`law_skill_list_rows`).
pub open spec fn parse_skill_list_spec(s: Seq<char>) -> Seq<Seq<Seq<char>>> {
    let out = trim(s);
    if out.len() == 0 || out == "nil"@ {
        Seq::<Seq<Seq<char>>>::empty()
    } else {
        let res = list_scan(out).3;
        if res.len() == 0 && !(out[0] == '(') {
            seq![seq![trim_char(out, '"')]]
        } else {
            res
        }
    }
}

fn list_token_exec(tok: &Vec<char>) -> (r: String)
    ensures
        r@ == list_token(tok@),
{
    let t = trim_chars(tok);
    let t2 = trim_char_chars(&t, '"');
    string_of(t2.as_slice())
}

fn flush_token_exec(row: &mut Vec<String>, tok: &mut Vec<char>)
    ensures
        (strings_view(final(row)@), final(tok)@) == flush_token(strings_view(old(row)@), old(tok)@),
{
    if tok.len() > 0 {
        let t = list_token_exec(tok);
        proof { lemma_strings_view_push(row@, t); }
        row.push(t);
        *tok = Vec::new();
    }
}

/// Parse a SKILL list result like `((1.0 2.0) (3.0 4.0))` into rows of
/// scalar texts. A flat list gives one row; a bare value gives one row with
/// that value; empty output and `nil` give no rows.
pub fn parse_skill_list(output: &str) -> (rows: Vec<Vec<String>>)
    ensures
        rows_view(rows@) == parse_skill_list_spec(output@),
{
    let all = chars_of(output);
    let cs = trim_chars(&all);
    let nil = chars_of("nil");
    if cs.len() == 0 || crate::text::chars_eq(&cs, &nil) {
        let empty: Vec<Vec<String>> = Vec::new();
        assert(rows_view(empty@) =~= Seq::<Seq<Seq<char>>>::empty());
        return empty;
    }
    let mut results: Vec<Vec<String>> = Vec::new();
    let mut depth: i128 = 0;
    let mut row: Vec<String> = Vec::new();
    let mut tok: Vec<char> = Vec::new();
    assert(rows_view(results@) =~= Seq::<Seq<Seq<char>>>::empty());
    assert(strings_view(row@) =~= Seq::<Seq<char>>::empty());
    assert(cs@.take(0) =~= Seq::<char>::empty());
    for i in 0..cs.len()
        invariant
            -(i as int) <= depth <= i,
            (depth as int, strings_view(row@), tok@, rows_view(results@)) == list_scan(cs@.take(i as int)),
    {
        let ch = cs[i];
        assert(cs@.take(i + 1).drop_last() == cs@.take(i as int));
        assert(cs@.take(i + 1).last() == ch);
        if ch == '(' {
            depth = depth + 1;
            if depth == 1 {
            } else if depth == 2 {
                row = Vec::new();
                assert(strings_view(row@) =~= Seq::<Seq<char>>::empty());
            } else {
                tok.push(ch);
            }
        } else if ch == ')' {
            depth = depth - 1;
            if depth == 1 {
                flush_token_exec(&mut row, &mut tok);
                if row.len() > 0 {
                    let copy = clone_strings(&row);
                    proof { lemma_rows_view_push(results@, copy); }
                    results.push(copy);
                }
            } else if depth == 0 {
                flush_token_exec(&mut row, &mut tok);
                if row.len() > 0 && results.len() == 0 {
                    let copy = clone_strings(&row);
                    proof { lemma_rows_view_push(results@, copy); }
                    results.push(copy);
                }
            } else {
                tok.push(ch);
            }
        } else if ch == ' ' || ch == '\t' || ch == '\n' {
            flush_token_exec(&mut row, &mut tok);
        } else {
            tok.push(ch);
        }
    }
    assert(cs@.take(cs.len() as int) == cs@);
    if results.len() == 0 && cs[0] != '(' {
        let t = trim_char_chars(&cs, '"');
        let one = string_of(t.as_slice());
        let mut r1: Vec<String> = Vec::new();
        r1.push(one);
        let mut rows: Vec<Vec<String>> = Vec::new();
        rows.push(r1);
        assert(strings_view(r1@) =~= seq![t@]);
        assert(rows_view(rows@) =~= seq![seq![t@]]);
        return rows;
    }
    results
}

} // verus!

verus! {

// ───────────────────────── what a list result reads as ─────────────────────────

/// A list atom: a non-empty text without parentheses, spaces, tabs or
/// newlines.
pub open spec fn is_atom(a: Seq<char>) -> bool {
    &&& a.len() > 0
    &&& forall|i: int| 0 <= i < a.len() ==> {
        let c = #[trigger] a[i];
        c != '(' && c != ')' && c != ' ' && c != '\t' && c != '\n'
    }
}

/// The SKILL text of one inner list: `(a b c)`.
pub open spec fn row_text(atoms: Seq<Seq<char>>) -> Seq<char> {
    seq!['('] + joined(atoms, seq![' ']) + seq![')']
}

/// The SKILL text of a list of lists: `((a b) (c d))`.
pub open spec fn list_text(rows: Seq<Seq<Seq<char>>>) -> Seq<char> {
    seq!['('] + joined(rows.map_values(|r: Seq<Seq<char>>| row_text(r)), seq![' ']) + seq![')']
}

/// The scalars a row of atoms reads as.
pub open spec fn row_tokens(atoms: Seq<Seq<char>>) -> Seq<Seq<char>> {
    atoms.map_values(|a: Seq<char>| list_token(a))
}

/// The scan continued from `st` over `cs`.
pub open spec fn scan_from(st: ListScan, cs: Seq<char>) -> ListScan
    decreases cs.len(),
{
    if cs.len() == 0 {
        st
    } else {
        list_step(scan_from(st, cs.drop_last()), cs.last())
    }
}

proof fn lemma_scan_is_from_start(cs: Seq<char>)
    ensures
        list_scan(cs) == scan_from((0, Seq::<Seq<char>>::empty(), Seq::<char>::empty(), Seq::<Seq<Seq<char>>>::empty()), cs),
    decreases cs.len(),
{
    if cs.len() > 0 {
        lemma_scan_is_from_start(cs.drop_last());
    }
}

proof fn lemma_scan_concat(st: ListScan, a: Seq<char>, b: Seq<char>)
    ensures
        scan_from(st, a + b) == scan_from(scan_from(st, a), b),
    decreases b.len(),
{
    if b.len() == 0 {
        assert(a + b =~= a);
    } else {
        assert((a + b).drop_last() =~= a + b.drop_last());
        assert((a + b).last() == b.last());
        lemma_scan_concat(st, a, b.drop_last());
    }
}

proof fn lemma_scan_one(st: ListScan, c: char)
    ensures
        scan_from(st, seq![c]) == list_step(st, c),
{
    let one = seq![c];
    assert(one.len() == 1);
    assert(one.drop_last() =~= Seq::<char>::empty());
    assert(one.last() == c);
    assert(scan_from(st, Seq::<char>::empty()) == st);
    assert(scan_from(st, one) == list_step(scan_from(st, one.drop_last()), one.last()));
}

proof fn lemma_scan_atom(row: Seq<Seq<char>>, tok: Seq<char>, res: Seq<Seq<Seq<char>>>, a: Seq<char>)
    requires
        forall|i: int| 0 <= i < a.len() ==> {
            let c = #[trigger] a[i];
            c != '(' && c != ')' && c != ' ' && c != '\t' && c != '\n'
        },
    ensures
        scan_from((2, row, tok, res), a) == (2int, row, tok + a, res),
    decreases a.len(),
{
    if a.len() == 0 {
        assert(tok + a =~= tok);
    } else {
        assert forall|i: int| 0 <= i < a.drop_last().len() implies {
            let c = #[trigger] a.drop_last()[i];
            c != '(' && c != ')' && c != ' ' && c != '\t' && c != '\n'
        } by {
            assert(a.drop_last()[i] == a[i]);
        }
        lemma_scan_atom(row, tok, res, a.drop_last());
        assert(a.last() == a[a.len() - 1]);
        assert((tok + a.drop_last()).push(a.last()) =~= tok + a);
    }
}

proof fn lemma_scan_row_body(row: Seq<Seq<char>>, res: Seq<Seq<Seq<char>>>, atoms: Seq<Seq<char>>)
    requires
        atoms.len() >= 1,
        forall|k: int| 0 <= k < atoms.len() ==> is_atom(#[trigger] atoms[k]),
    ensures
        scan_from((2, row, Seq::<char>::empty(), res), joined(atoms, seq![' ']))
            == (2int, row + row_tokens(atoms.drop_last()), atoms.last(), res),
    decreases atoms.len(),
{
    let e = Seq::<char>::empty();
    if atoms.len() == 1 {
        assert(is_atom(atoms[0]));
        lemma_scan_atom(row, e, res, atoms[0]);
        assert(e + atoms[0] =~= atoms[0]);
        assert(row_tokens(atoms.drop_last()) =~= Seq::<Seq<char>>::empty());
        assert(row + Seq::<Seq<char>>::empty() =~= row);
    } else {
        let init = atoms.drop_last();
        assert forall|k: int| 0 <= k < init.len() implies is_atom(#[trigger] init[k]) by {
            assert(init[k] == atoms[k]);
        }
        lemma_scan_row_body(row, res, init);
        let j = joined(init, seq![' ']);
        let st = (2int, row, e, res);
        lemma_scan_concat(st, j, seq![' ']);
        lemma_scan_concat(st, j + seq![' '], atoms.last());
        let prev = init.last();
        assert(is_atom(init[init.len() - 1]));
        let mid = scan_from(st, j + seq![' ']);
        lemma_scan_one(scan_from(st, j), ' ');
        assert(mid == (2int, (row + row_tokens(init.drop_last())).push(list_token(prev)), e, res));
        assert(is_atom(atoms[atoms.len() - 1]));
        lemma_scan_atom((row + row_tokens(init.drop_last())).push(list_token(prev)), e, res, atoms.last());
        assert(e + atoms.last() =~= atoms.last());
        assert((row + row_tokens(init.drop_last())).push(list_token(prev)) =~= row + row_tokens(init));
    }
}

proof fn lemma_scan_row(row0: Seq<Seq<char>>, res: Seq<Seq<Seq<char>>>, atoms: Seq<Seq<char>>)
    requires
        atoms.len() >= 1,
        forall|k: int| 0 <= k < atoms.len() ==> is_atom(#[trigger] atoms[k]),
    ensures
        scan_from((1, row0, Seq::<char>::empty(), res), row_text(atoms))
            == (1int, row_tokens(atoms), Seq::<char>::empty(), res.push(row_tokens(atoms))),
{
    let e = Seq::<char>::empty();
    let st = (1int, row0, e, res);
    let j = joined(atoms, seq![' ']);
    lemma_scan_concat(st, seq!['('], j);
    lemma_scan_concat(st, seq!['('] + j, seq![')']);
    lemma_scan_one(st, '(');
    let st2 = (2int, Seq::<Seq<char>>::empty(), e, res);
    assert(scan_from(st, seq!['(']) == st2);
    lemma_scan_row_body(Seq::<Seq<char>>::empty(), res, atoms);
    lemma_scan_one(scan_from(st2, j), ')');
    assert(is_atom(atoms[atoms.len() - 1]));
    assert(Seq::<Seq<char>>::empty() + row_tokens(atoms.drop_last()) =~= row_tokens(atoms.drop_last()));
    assert(row_tokens(atoms.drop_last()).push(list_token(atoms.last())) =~= row_tokens(atoms));
}

proof fn lemma_scan_rows(row0: Seq<Seq<char>>, res: Seq<Seq<Seq<char>>>, rows: Seq<Seq<Seq<char>>>)
    requires
        rows.len() >= 1,
        forall|r: int| 0 <= r < rows.len() ==> (#[trigger] rows[r]).len() >= 1
            && forall|k: int| 0 <= k < rows[r].len() ==> is_atom(#[trigger] rows[r][k]),
    ensures
        scan_from((1, row0, Seq::<char>::empty(), res),
            joined(rows.map_values(|r: Seq<Seq<char>>| row_text(r)), seq![' ']))
            == (1int, row_tokens(rows.last()), Seq::<char>::empty(),
                res + rows.map_values(|r: Seq<Seq<char>>| row_tokens(r))),
    decreases rows.len(),
{
    let e = Seq::<char>::empty();
    let texts = rows.map_values(|r: Seq<Seq<char>>| row_text(r));
    if rows.len() == 1 {
        assert(texts[0] == row_text(rows[0]));
        lemma_scan_row(row0, res, rows[0]);
        assert(res.push(row_tokens(rows[0])) =~= res + rows.map_values(|r: Seq<Seq<char>>| row_tokens(r)));
    } else {
        let init = rows.drop_last();
        assert forall|r: int| 0 <= r < init.len() implies (#[trigger] init[r]).len() >= 1
            && forall|k: int| 0 <= k < init[r].len() ==> is_atom(#[trigger] init[r][k]) by {
            assert(init[r] == rows[r]);
        }
        lemma_scan_rows(row0, res, init);
        assert(texts.drop_last() =~= init.map_values(|r: Seq<Seq<char>>| row_text(r)));
        let j = joined(texts.drop_last(), seq![' ']);
        let st = (1int, row0, e, res);
        lemma_scan_concat(st, j, seq![' ']);
        lemma_scan_concat(st, j + seq![' '], texts.last());
        lemma_scan_one(scan_from(st, j), ' ');
        let acc = res + init.map_values(|r: Seq<Seq<char>>| row_tokens(r));
        assert(scan_from(st, j + seq![' ']) == (1int, row_tokens(init.last()), e, acc));
        let last = rows[rows.len() - 1];
        assert(texts.last() == row_text(last));
        lemma_scan_row(row_tokens(init.last()), acc, last);
        assert(acc.push(row_tokens(last)) =~= res + rows.map_values(|r: Seq<Seq<char>>| row_tokens(r)));
    }
}

/// A list of lists reads as its rows: for `((a b) (c d) …)`, each inner list
/// of atoms becomes one row of its scalars (trimmed, unquoted), in order.
pub proof fn law_skill_list_rows(rows: Seq<Seq<Seq<char>>>)
    requires
        rows.len() >= 1,
        forall|r: int| 0 <= r < rows.len() ==> (#[trigger] rows[r]).len() >= 1
            && forall|k: int| 0 <= k < rows[r].len() ==> is_atom(#[trigger] rows[r][k]),
    ensures
        parse_skill_list_spec(list_text(rows)) == rows.map_values(|r: Seq<Seq<char>>| row_tokens(r)),
{
    let e = Seq::<char>::empty();
    let t = list_text(rows);
    let j = joined(rows.map_values(|r: Seq<Seq<char>>| row_text(r)), seq![' ']);
    let start = (0int, Seq::<Seq<char>>::empty(), e, Seq::<Seq<Seq<char>>>::empty());
    // the text is its own trim
    crate::chars::lemma_drop_front_at(t, ws_pred(), 0);
    assert(t.skip(0) =~= t);
    assert(t[t.len() - 1] == ')');
    crate::chars::lemma_drop_back_at(t, ws_pred(), t.len() as int);
    assert(t.take(t.len() as int) =~= t);
    assert(trim(t) == t);
    reveal_strlit("nil");
    assert(t[0] == '(');
    assert(t != "nil"@);
    // the scan
    lemma_scan_is_from_start(t);
    lemma_scan_concat(start, seq!['('], j);
    lemma_scan_concat(start, seq!['('] + j, seq![')']);
    lemma_scan_one(start, '(');
    let one = (1int, Seq::<Seq<char>>::empty(), e, Seq::<Seq<Seq<char>>>::empty());
    assert(scan_from(start, seq!['(']) == one);
    lemma_scan_rows(Seq::<Seq<char>>::empty(), Seq::<Seq<Seq<char>>>::empty(), rows);
    lemma_scan_one(scan_from(one, j), ')');
    assert(t =~= seq!['('] + j + seq![')']);
    assert(Seq::<Seq<Seq<char>>>::empty() + rows.map_values(|r: Seq<Seq<char>>| row_tokens(r))
        =~= rows.map_values(|r: Seq<Seq<char>>| row_tokens(r)));
    assert(list_scan(t).3 == rows.map_values(|r: Seq<Seq<char>>| row_tokens(r)));
}

} // verus!

verus! {

// ───────────────────────── what the analysis and corner scripts say ─────────────────────────

/// Parameters are written in order, each after the ones before it, and a
/// value Rust parses as an `f64` is sent bare: adding a parameter
/// `?k v` to a simple analysis puts ` ?k v` just before the closing
/// parenthesis, unquoted when `v` is float text.
pub proof fn law_simple_analysis_appends_param(typ: Seq<char>, params: Seq<(String, String)>, k: String, v: String)
    ensures
        analysis_skill_simple_text(typ, Seq::<(String, String)>::empty()) == "analysis('"@ + typ + ")"@,
        is_float_text(v@) ==> analysis_skill_simple_text(typ, params.push((k, v)))
            == analysis_skill_simple_text(typ, params).drop_last() + " ?"@ + k@ + " "@ + v@ + ")"@,
        !bare_value(v@) ==> analysis_skill_simple_text(typ, params.push((k, v)))
            == analysis_skill_simple_text(typ, params).drop_last() + " ?"@ + k@ + " \""@ + v@ + "\""@ + ")"@,
{
    reveal_strlit(")");
    assert(simple_params_text(Seq::<(String, String)>::empty()) =~= Seq::<char>::empty());
    assert("analysis('"@ + typ + Seq::<char>::empty() + ")"@ =~= "analysis('"@ + typ + ")"@);
    let p2 = params.push((k, v));
    assert(p2.drop_last() =~= params);
    assert(p2.last() == (k, v));
    let base = "analysis('"@ + typ + simple_params_text(params);
    assert(analysis_skill_simple_text(typ, params) =~= base + ")"@);
    assert((base + ")"@).drop_last() =~= base);
    assert(analysis_skill_simple_text(typ, p2) =~= base + simple_param_text(k@, v@) + ")"@);
}

/// Adding a parameter to an analysis puts its ` ?key value` just before the
/// closing parenthesis, after the ones before it; a number goes bare.
pub proof fn law_analysis_appends_param(a: AnalysisConfig, b: AnalysisConfig, k: String, v: ParamValue)
    requires
        b.analysis_type == a.analysis_type,
        b.params@ == a.params@.push((k, v)),
    ensures
        a.params@.len() == 0 ==> analysis_skill_text(a) == "analysis('"@ + a.analysis_type@ + ")"@,
        analysis_skill_text(b) == analysis_skill_text(a).drop_last() + config_param_text(k@, v) + ")"@,
        v matches ParamValue::Number(n) ==> analysis_skill_text(b)
            == analysis_skill_text(a).drop_last() + " ?"@ + k@ + " "@ + n@ + ")"@,
{
    reveal_strlit(")");
    if a.params@.len() == 0 {
        assert(config_params_text(a.params@) =~= Seq::<char>::empty());
        assert(analysis_skill_text(a) =~= "analysis('"@ + a.analysis_type@ + ")"@);
    }
    assert(b.params@.drop_last() =~= a.params@);
    assert(b.params@.last() == (k, v));
    let base = "analysis('"@ + a.analysis_type@ + config_params_text(a.params@);
    assert(analysis_skill_text(a) =~= base + ")"@);
    assert((base + ")"@).drop_last() =~= base);
    assert(analysis_skill_text(b) =~= base + config_param_text(k@, v) + ")"@);
}

/// The corner script sets everything up before the corners run: it picks
/// the simulator (Spectre unless one is named), opens the design, then sets
/// the configured analysis, and only then starts collecting results.
pub proof fn law_corner_script_sets_analysis_first(config: CornerConfig)
    ensures
        crate::chars::starts_with(corner_skill_text(config),
            "simulator('"@ + (match config.simulator { Some(s) => s@, None => "spectre"@ })
                + ")\ndesign("@ + quoted(config.design.lib@) + " "@ + quoted(config.design.cell@) + " "@
                + quoted(config.design.view@) + ")\n"@
                + analysis_skill_text(config.analysis) + "\n"@ + "let((results)\n"@),
{
    reveal_strlit("let((results)\n  results = nil\n");
    reveal_strlit("let((results)\n");
    reveal_strlit("  results = nil\n");
    let pre = "simulator('"@ + simulator_name(config)
        + ")\ndesign("@ + quoted(config.design.lib@) + " "@ + quoted(config.design.cell@) + " "@
        + quoted(config.design.view@) + ")\n"@
        + analysis_skill_text(config.analysis) + "\n"@;
    assert("let((results)\n  results = nil\n"@ =~= "let((results)\n"@ + "  results = nil\n"@);
    let p = pre + "let((results)\n"@;
    let t = corner_skill_text(config);
    assert(t =~= p + "  results = nil\n"@
        + corner_blocks_text(config.corners@, config.model_file@, config.analysis.analysis_type@, config.measures@)
        + "  reverse(results)\n)"@);
    assert(t.take(p.len() as int) =~= p);
}

} // verus!

verus! {

/// A corner's block runs that corner: it loads the model file with the
/// corner's section, sets the corner's temperature, then runs, selects the
/// configured analysis and records the results under the corner's name and
/// temperature.
pub proof fn law_corner_block_runs_its_corner(c: Corner, model_file: Seq<char>, analysis_type: Seq<char>, measures: Seq<Measure>)
    ensures
        crate::chars::contains(corner_block_text(c, model_file, analysis_type, measures),
            "\n  modelFile('("@ + quoted(model_file) + " \"\") "@ + quoted(c.section@)),
        crate::chars::contains(corner_block_text(c, model_file, analysis_type, measures),
            ")\n  temp("@ + c.temp@ + ")\n"@),
        crate::chars::contains(corner_block_text(c, model_file, analysis_type, measures),
            "  run()\n  selectResult('"@ + analysis_type + ")\n  results = cons(list("@ + quoted(c.name@) + " "@ + c.temp@),
{
    let t = corner_block_text(c, model_file, analysis_type, measures);
    let h = "  ;; "@ + escape(c.name@);
    let n1 = "\n  modelFile('("@ + quoted(model_file) + " \"\") "@ + quoted(c.section@);
    let n2 = ")\n  temp("@ + c.temp@ + ")\n"@;
    let vars = corner_vars_text(c.vars@);
    let n3 = "  run()\n  selectResult('"@ + analysis_type + ")\n  results = cons(list("@ + quoted(c.name@) + " "@ + c.temp@;
    let ms = "\n"@ + corner_measures_text(measures) + "\n  ) results)\n"@;
    assert(t =~= h + n1 + (n2 + vars + n3 + ms));
    crate::chars::lemma_contains_middle(h, n1, n2 + vars + n3 + ms);
    assert(t =~= (h + n1) + n2 + (vars + n3 + ms));
    crate::chars::lemma_contains_middle(h + n1, n2, vars + n3 + ms);
    assert(t =~= (h + n1 + n2 + vars) + n3 + ms);
    crate::chars::lemma_contains_middle(h + n1 + n2 + vars, n3, ms);
}

proof fn lemma_blocks_contain(corners: Seq<Corner>, model_file: Seq<char>, analysis_type: Seq<char>, measures: Seq<Measure>, i: int)
    requires
        0 <= i < corners.len(),
    ensures
        exists|pre: Seq<char>, post: Seq<char>| corner_blocks_text(corners, model_file, analysis_type, measures)
            == pre + corner_block_text(corners[i], model_file, analysis_type, measures) + post,
    decreases corners.len(),
{
    let b = corner_blocks_text(corners, model_file, analysis_type, measures);
    let blk = corner_block_text(corners[i], model_file, analysis_type, measures);
    if i == corners.len() - 1 {
        let pre = corner_blocks_text(corners.drop_last(), model_file, analysis_type, measures);
        assert(b =~= pre + blk + Seq::<char>::empty());
    } else {
        lemma_blocks_contain(corners.drop_last(), model_file, analysis_type, measures, i);
        assert(corners.drop_last()[i] == corners[i]);
        let (pre, post) = choose|pre: Seq<char>, post: Seq<char>|
            corner_blocks_text(corners.drop_last(), model_file, analysis_type, measures) == pre + blk + post;
        let last = corner_block_text(corners.last(), model_file, analysis_type, measures);
        assert(b =~= pre + blk + (post + last));
    }
}

/// Every configured corner runs: the corner script holds the block of each
/// corner, with the configured model file, analysis and measurements.
pub proof fn law_corner_script_runs_every_corner(config: CornerConfig, i: int)
    requires
        0 <= i < config.corners@.len(),
    ensures
        crate::chars::contains(corner_skill_text(config),
            corner_block_text(config.corners@[i], config.model_file@, config.analysis.analysis_type@, config.measures@)),
{
    lemma_blocks_contain(config.corners@, config.model_file@, config.analysis.analysis_type@, config.measures@, i);
    let blk = corner_block_text(config.corners@[i], config.model_file@, config.analysis.analysis_type@, config.measures@);
    let (pre, post) = choose|pre: Seq<char>, post: Seq<char>|
        corner_blocks_text(config.corners@, config.model_file@, config.analysis.analysis_type@, config.measures@) == pre + blk + post;
    let head = "simulator('"@ + simulator_name(config) + ")\ndesign("@ + quoted(config.design.lib@) + " "@
        + quoted(config.design.cell@) + " "@ + quoted(config.design.view@) + ")\n"@
        + analysis_skill_text(config.analysis) + "\n"@ + "let((results)\n  results = nil\n"@;
    assert(corner_skill_text(config) =~= (head + pre) + blk + (post + "  reverse(results)\n)"@));
    crate::chars::lemma_contains_middle(head + pre, blk, post + "  reverse(results)\n)"@);
}

/// Setting up a simulation selects the simulator named and then the design's
/// library, cell and view in that order.
pub proof fn law_setup_selects_simulator_and_design(lib: Seq<char>, cell: Seq<char>, view: Seq<char>, simulator: Seq<char>)
    ensures
        crate::chars::contains(setup_skill_text(lib, cell, view, simulator), " simulator('"@ + simulator + "))"@),
        crate::chars::contains(setup_skill_text(lib, cell, view, simulator),
            "design("@ + quoted(lib) + " "@ + quoted(cell) + " "@ + quoted(view) + ")"@),
{
    reveal_strlit("))\ndesign(");
    reveal_strlit("))");
    reveal_strlit("\ndesign(");
    reveal_strlit("design(");
    reveal_strlit("\n");
    reveal_strlit(")\nresultsDir()");
    reveal_strlit(")");
    reveal_strlit("\nresultsDir()");
    let h = "unless(simulator() == '"@ + simulator;
    let n1 = " simulator('"@ + simulator + "))"@;
    let n2 = "design("@ + quoted(lib) + " "@ + quoted(cell) + " "@ + quoted(view) + ")"@;
    assert("))\ndesign("@ =~= "))"@ + "\n"@ + "design("@);
    assert(")\nresultsDir()"@ =~= ")"@ + "\nresultsDir()"@);
    let t = setup_skill_text(lib, cell, view, simulator);
    assert(t =~= h + n1 + ("\n"@ + n2 + "\nresultsDir()"@));
    crate::chars::lemma_contains_middle(h, n1, "\n"@ + n2 + "\nresultsDir()"@);
    assert(t =~= (h + n1 + "\n"@) + n2 + "\nresultsDir()"@);
    crate::chars::lemma_contains_middle(h + n1 + "\n"@, n2, "\nresultsDir()"@);
}

} // verus!
