use virtuoso_cli::maestro_ops::{MaestroOps, VirtuosoVersion};

fn ops() -> MaestroOps {
    MaestroOps
}

#[test]
fn open_session_quoting() {
    let s = ops().open_session("myLib", "myCell", "adexl");
    assert_eq!(s, r#"maeOpenSetup("myLib" "myCell" "adexl")"#);
}

#[test]
fn open_session_escapes_quotes() {
    let s = ops().open_session(r#"lib"x"#, "cell", "adexl");
    assert!(s.contains(r#"lib\"x"#), "{s}");
}

#[test]
fn set_var_format() {
    let s = ops().set_var("Vdd", "1.8");
    assert_eq!(s, r#"maeSetVar("Vdd" "1.8")"#);
}

#[test]
fn run_simulation_includes_session() {
    let s = ops().run_simulation("sess1");
    assert!(s.contains("maeRunSimulation"), "{s}");
    assert!(s.contains("\"sess1\""), "{s}");
}

#[test]
fn list_sessions_uses_helper() {
    let s = ops().list_sessions();
    assert!(s.contains("maeGetSessions()"), "{s}");
    assert!(s.contains("foreach"), "{s}");
    assert!(s.contains(r#"strcat(out "]")"#), "{s}");
}

#[test]
fn get_analyses_resolves_setup() {
    let s = ops().get_analyses("sess1");
    assert!(s.contains("maeGetSetup"), "must resolve setup: {s}");
    assert!(s.contains("maeGetEnabledAnalysis"), "{s}");
    assert!(s.contains("foreach"), "must produce JSON array: {s}");
}

#[test]
fn get_result_tests_uses_helper() {
    let s = ops().get_result_tests();
    assert!(s.contains("maeGetResultTests()"), "{s}");
    assert!(s.contains("foreach"), "{s}");
}

#[test]
fn get_history_list_uses_helper() {
    let s = ops().get_history_list("fnxSession0");
    assert!(s.contains("maeGetAllExplorerHistoryNames"), "{s}");
    assert!(s.contains("fnxSession0"), "{s}");
    assert!(s.contains("foreach"), "{s}");
}

#[test]
fn set_analysis_ic23_positional() {
    let s = ops().set_analysis("sess1", "ac", None, VirtuosoVersion::IC23);
    assert!(s.contains("maeGetSetup"), "IC23 must resolve setup: {s}");
    assert!(s.contains("maeSetAnalysis"), "{s}");
    assert!(s.contains("\"ac\""), "{s}");
}

#[test]
fn set_analysis_ic23_no_options() {
    let s = ops().set_analysis("sess1", "ac", None, VirtuosoVersion::IC23);
    assert!(
        !s.contains("?options"),
        "IC23 path must not inject options: {s}"
    );
}

#[test]
fn add_output_includes_expr() {
    let s = ops().add_output("gain", "AC", "getData(\"vout\")");
    assert!(s.contains("maeAddOutput"), "{s}");
    assert!(s.contains("\"gain\""), "{s}");
    assert!(s.contains("\"AC\""), "{s}");
}

#[test]
fn set_analysis_ic25_passes_options() {
    let s = ops().set_analysis("sess1", "ac", Some("((\"start\" \"1\"))"), VirtuosoVersion::IC25);
    assert!(s.contains("?session \"sess1\""), "{s}");
    assert!(s.contains("?options"), "{s}");
    assert!(!s.contains("maeGetSetup"), "{s}");
}
