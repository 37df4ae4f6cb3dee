use virtuoso_cli::ocean::{analysis_skill_simple, parse_skill_list, setup_skill, sweep_skill_from_texts};

#[test]
fn setup_skill_format() {
    let s = setup_skill("myLib", "myCell", "schematic", "spectre");
    assert!(s.contains("design(\"myLib\" \"myCell\" \"schematic\")"), "{s}");
    assert!(s.contains("spectre"), "{s}");
    assert!(s.ends_with("resultsDir()"), "{s}");
}

#[test]
fn setup_skill_escapes_lib() {
    let s = setup_skill(r#"my"Lib"#, "cell", "schematic", "spectre");
    assert!(s.contains(r#"my\"Lib"#), "{s}");
}

#[test]
fn analysis_skill_simple_boolean_unquoted() {
    let params = vec![
        ("start".to_string(), "1e-9".to_string()),
        ("stop".to_string(), "1e-6".to_string()),
        ("conservative".to_string(), "t".to_string()),
    ];
    let s = analysis_skill_simple("tran", &params);
    assert!(s.starts_with("analysis('tran"), "{s}");
    assert!(s.contains("?conservative t"), "{s}");
}

#[test]
fn analysis_skill_simple_string_quoted() {
    let params = vec![("errpreset".to_string(), "moderate".to_string())];
    let s = analysis_skill_simple("tran", &params);
    assert!(s.contains("?errpreset \"moderate\""), "{s}");
}

#[test]
fn sweep_skill_uses_desvar() {
    let values = vec!["1".to_string(), "1.2".to_string(), "1.8".to_string()];
    let exprs = vec!["VT(\"M1\" \"VGS\")".to_string()];
    let s = sweep_skill_from_texts("Vdd", &values, "dc", &exprs);
    assert!(s.contains("desVar(\"Vdd\" val)"), "{s}");
    assert!(s.contains("run()"), "{s}");
    assert!(s.contains("reverse(results)"), "{s}");
}

#[test]
fn parse_skill_list_nested() {
    let rows = parse_skill_list("((1.0 2.0) (3.0 4.0))");
    assert_eq!(rows.len(), 2);
    assert_eq!(rows[0], vec!["1.0", "2.0"]);
    assert_eq!(rows[1], vec!["3.0", "4.0"]);
}

#[test]
fn parse_skill_list_single_value() {
    let rows = parse_skill_list("42");
    assert_eq!(rows, vec![vec!["42"]]);
}

#[test]
fn analysis_numbers_stay_bare() {
    let params = vec![("stop".to_string(), "1e-6".to_string())];
    let s = analysis_skill_simple("tran", &params);
    assert!(s.contains("?stop 1e-6"), "{s}");
}

#[test]
fn skill_list_rows_are_unquoted_atoms() {
    let rows = parse_skill_list("((\"tt\" 27 1.2e-3) (\"ff\" -40 9e-4))");
    assert_eq!(rows, vec![vec!["tt", "27", "1.2e-3"], vec!["ff", "-40", "9e-4"]]);
}
