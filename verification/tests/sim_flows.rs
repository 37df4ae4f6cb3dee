use virtuoso_cli::error::VirtuosoError;
use virtuoso_cli::models::VirtuosoResult;
use virtuoso_cli::sim_flow::{
    asi_netlist_skill, netlist_failure, netlist_output, netlist_skill, require_ok, results_listing_skill, unquote,
    FlowStep, MeasureStage, RunStage, SimMeasure, SimRun,
};

fn ok(s: &str) -> Result<VirtuosoResult, VirtuosoError> {
    Ok(VirtuosoResult::success(s.to_string()))
}

fn skill_of<T>(s: &FlowStep<T>) -> (&str, Option<u64>) {
    match s {
        FlowStep::Execute(x, t) => (x.as_str(), *t),
        _ => panic!("execute expected"),
    }
}

#[test]
fn unquote_strips_space_and_quotes() {
    assert_eq!(unquote("  \"/tmp/run\"\n"), "/tmp/run");
}

#[test]
fn run_happy_path() {
    let params = vec![("stop".to_string(), "1u".to_string())];
    let (mut run, first) = SimRun::new("tran".into(), params, 120);
    assert_eq!(skill_of(&first), ("resultsDir()", None));
    let s = run.step(ok("\"/sim/r\""));
    assert_eq!(skill_of(&s), ("analysis('tran ?stop \"1u\")", None));
    let s = run.step(ok("t"));
    assert_eq!(skill_of(&s), ("save('all)", None));
    let s = run.step(Err(VirtuosoError::Timeout(1)));
    assert_eq!(skill_of(&s), ("run()", Some(120)));
    let s = run.step(ok("\"/sim/r/psf\""));
    assert_eq!(skill_of(&s), ("resultsDir()", None));
    match run.step(ok("\"/sim/r\"")) {
        FlowStep::Done(d) => assert_eq!(d, "/sim/r"),
        other => panic!("unexpected {other:?}"),
    }
    assert_eq!(run.stage, RunStage::Finished);
}

#[test]
fn run_without_results_dir_fails() {
    let (mut run, _) = SimRun::new("tran".into(), Vec::new(), 1);
    match run.step(ok("nil")) {
        FlowStep::Fail(VirtuosoError::Execution(m)) => assert!(m.starts_with("resultsDir is not set")),
        other => panic!("unexpected {other:?}"),
    }
}

#[test]
fn run_nil_checks_spectre_log() {
    let (mut run, _) = SimRun::new("dc".into(), Vec::new(), 1);
    run.step(ok("/d"));
    run.step(ok("t"));
    run.step(ok("t"));
    run.step(ok("nil"));
    let s = run.step(ok("\"/d\""));
    assert_eq!(skill_of(&s), ("isFile(\"/d/psf/spectre.out\")", None));
    match run.step(ok("nil")) {
        FlowStep::Fail(VirtuosoError::Execution(m)) => assert!(m.starts_with("Simulation failed: run() returned nil")),
        other => panic!("unexpected {other:?}"),
    }
    let (mut run2, _) = SimRun::new("dc".into(), Vec::new(), 1);
    run2.step(ok("/d"));
    run2.step(ok("t"));
    run2.step(ok("t"));
    run2.step(ok("nil"));
    run2.step(ok("/d"));
    assert!(matches!(run2.step(ok("t")), FlowStep::Done(ref d) if d == "/d"));
}

#[test]
fn analysis_failure_reports_errors() {
    let (mut run, _) = SimRun::new("ac".into(), Vec::new(), 1);
    run.step(ok("/d"));
    match run.step(Ok(VirtuosoResult::error(vec!["a".into(), "b".into()]))) {
        FlowStep::Fail(VirtuosoError::Execution(m)) => assert_eq!(m, "a; b"),
        other => panic!("unexpected {other:?}"),
    }
}

#[test]
fn measure_flow() {
    let exprs = vec!["ymax(getData(\"v\"))".to_string(), "bad()".to_string()];
    let (mut m, first) = SimMeasure::new("tran".into(), exprs).unwrap();
    assert_eq!(skill_of(&first), ("resultsDir()", None));
    let s = m.step(ok("\"/r\""));
    assert_eq!(skill_of(&s), ("openResults(\"/r/psf\")", None));
    let s = m.step(Err(VirtuosoError::Timeout(1)));
    assert_eq!(skill_of(&s), ("selectResult('tran)", None));
    let s = m.step(ok("t"));
    assert_eq!(skill_of(&s), ("ymax(getData(\"v\"))", None));
    assert_eq!(m.stage, MeasureStage::Measure(0));
    let s = m.step(ok("1.5"));
    assert_eq!(skill_of(&s), ("bad()", None));
    match m.step(Ok(VirtuosoResult::error(vec!["oops".into()]))) {
        FlowStep::Done(rep) => {
            assert_eq!(rep.values, vec!["1.5".to_string(), "ERROR: oops".to_string()]);
            assert!(rep.warnings.is_empty());
        }
        other => panic!("unexpected {other:?}"),
    }
}

#[test]
fn measure_all_nil_warns() {
    let (mut m, _) = SimMeasure::new("dc".into(), vec!["v".into()]).unwrap();
    let s = m.step(ok("nil"));
    assert_eq!(skill_of(&s), ("selectResult('dc)", None));
    m.step(ok("t"));
    let s = m.step(ok("nil"));
    assert_eq!(skill_of(&s), ("isFile(\"nil/psf/spectre.out\")", None));
    match m.step(ok("0")) {
        FlowStep::Done(rep) => {
            assert_eq!(rep.values, vec!["nil".to_string()]);
            assert!(rep.warnings[0].contains("No spectre.out found"));
        }
        other => panic!("unexpected {other:?}"),
    }
}

#[test]
fn measure_rejects_dangerous_exprs() {
    match SimMeasure::new("dc".into(), vec!["v".into(), "system(\"rm\")".into(), "load(\"x\")".into()]) {
        Err(e) => assert!(e.to_string().contains("'system('")),
        Ok(_) => panic!("must be rejected"),
    }
}

#[test]
fn require_ok_joins_errors() {
    assert!(require_ok(&VirtuosoResult::success("x".into())).is_ok());
    match require_ok(&VirtuosoResult::error(vec!["a".into(), "b".into()])) {
        Err(VirtuosoError::Execution(m)) => assert_eq!(m, "a; b"),
        other => panic!("unexpected {:?}", other),
    }
}

#[test]
fn results_listing_names_the_directory() {
    assert_eq!(
        results_listing_skill("/sim/run1"),
        "let((dir files) dir=\"/sim/run1\" when(isDir(dir) files=getDirFiles(dir)) files)"
    );
}

#[test]
fn netlist_calls_and_outputs() {
    assert_eq!(netlist_skill(true), "createNetlist(?recreateAll t ?display nil)");
    assert_eq!(netlist_skill(false), "createNetlist(?display nil)");
    assert_eq!(asi_netlist_skill(), "asiCreateNetlist(asiGetSession(hiGetCurrentWindow()))");
    assert_eq!(netlist_output(&VirtuosoResult::success(" \"/tmp/netlist\" ".into())), Some("/tmp/netlist".to_string()));
    assert_eq!(netlist_output(&VirtuosoResult::success("nil".into())), None);
    assert_eq!(netlist_output(&VirtuosoResult::error(vec!["x".into()])), None);
    match netlist_failure() {
        VirtuosoError::Execution(m) => assert!(m.starts_with("Cannot create netlist programmatically.")),
        other => panic!("unexpected {:?}", other),
    }
}
