use virtuoso_cli::guard::{check_blocking_skill, validate_measure_expr};

#[test]
fn safe_waveform_exprs_are_allowed() {
    for expr in &[
        "VT(\"vout\" \"VGS\")",
        "bandwidth(getData(\"vout\") 3)",
        "value(getData(\"vout\") 1e-9)",
        "getData(\"/vout\")",
        "ymax(getData(\"id\"))",
        "delay(getData(\"vout\") 0.5)",
    ] {
        assert!(validate_measure_expr(expr).is_ok(), "should be allowed: {expr}");
    }
}

#[test]
fn dangerous_exprs_are_blocked() {
    let cases = [
        ("system(\"id\")", "system("),
        ("sh(\"ls\")", "sh("),
        ("ipcBeginProcess(\"cmd\")", "ipcbeginprocess("),
        ("deleteFile(\"/etc/hosts\")", "deletefile("),
        ("load(\"/tmp/evil.il\")", "load("),
        ("evalstring(\"getData(1)\")", "evalstring("),
        ("SYSTEM(\"id\")", "system("),
        ("DeleteFile(\"/tmp/x\")", "deletefile("),
    ];
    for (expr, pat) in &cases {
        let err = validate_measure_expr(expr).unwrap_err();
        assert!(
            err.to_string().contains(pat),
            "error should mention '{pat}': {}",
            err.to_string()
        );
    }
}

#[test]
fn blocked_message_is_exact() {
    let err = validate_measure_expr("x + load(\"f\")").unwrap_err();
    assert_eq!(
        err.to_string(),
        "execution failed: measure expression contains blocked function 'load(': only waveform access functions are allowed"
    );
}

#[test]
fn recursive_find_from_root_is_blocked() {
    assert!(check_blocking_skill("system(\"find / -name x\")").is_some());
    assert!(check_blocking_skill("sh(\"FIND \"/x\")").is_some());
    assert!(check_blocking_skill("system(\"find /home/me\")").is_some());
    assert!(check_blocking_skill("find / -name x").is_none());
    assert!(check_blocking_skill("getData(\"v\")").is_none());
}
