use virtuoso_cli::error::VirtuosoError;
use virtuoso_cli::models::VirtuosoResult;
use virtuoso_cli::schematic_build::{
    build_connection_count, build_target, check_step, conn_commands, connection_assignments, connection_script,
    load_file_skill, parse_key_val, parse_params, parse_points, parse_skill_json, pin_commands, place_commands, placement_commands,
    skill_json_error, skill_json_texts, Orient, SchematicSpec, SpecConnection, SpecGlobal, SpecInstance, SpecPin,
    SpecTarget,
};
use virtuoso_cli::schematic_ops::SchematicOps;

fn spec() -> SchematicSpec {
    SchematicSpec {
        target: SpecTarget { lib: "L".into(), cell: "C".into(), view: "schematic".into() },
        instances: vec![SpecInstance {
            name: "M1".into(),
            master: "analogLib/nmos4".into(),
            x: 1,
            y: 2,
            orient: Orient::MX,
            params: vec![("w".into(), "1u".into())],
        }],
        connections: vec![SpecConnection { net: "out".into(), from: "M1:D".into(), to: "R1:PLUS".into() }],
        globals: vec![SpecGlobal { net: "gnd!".into(), insts: vec!["M1:S".into(), "M1:B".into()] }],
        pins: vec![SpecPin { net: "out".into(), pin_type: "output".into(), connect: None, x: 0, y: 5 }],
    }
}

#[test]
fn orient_names() {
    assert_eq!(Orient::R0.as_str(), "R0");
    assert_eq!(Orient::MYR90.as_str(), "MYR90");
}

#[test]
fn placements() {
    let ops = SchematicOps::new();
    let v = placement_commands(&spec()).unwrap();
    assert_eq!(
        v,
        vec![
            ops.create_instance("analogLib", "nmos4", "symbol", "M1", (1, 2)),
            ops.set_instance_param("M1", "w", "1u"),
        ]
    );
    let mut bad = spec();
    bad.instances[0].master = "nolib".into();
    match placement_commands(&bad) {
        Err(VirtuosoError::Config(m)) => assert_eq!(m, "Instance M1 master 'nolib' must be lib/cell"),
        other => panic!("unexpected {other:?}"),
    }
}

#[test]
fn assignments_and_script() {
    let a = connection_assignments(&spec()).unwrap();
    let t = |x: &str, y: &str, z: &str| (x.to_string(), y.to_string(), z.to_string());
    assert_eq!(
        a,
        vec![t("M1", "D", "out"), t("R1", "PLUS", "out"), t("M1", "S", "gnd!"), t("M1", "B", "gnd!")]
    );
    let script = connection_script(&a[..1].to_vec());
    assert_eq!(script, "let((cv)\ncv = RB_SCH_CV\nRB_connectTerminal(cv \"M1\" \"D\" \"out\")\nt)");
    let mut bad = spec();
    bad.globals[0].insts.push("oops".into());
    match connection_assignments(&bad) {
        Err(VirtuosoError::Config(m)) => assert_eq!(m, "Bad global 'oops' in gnd!"),
        other => panic!("unexpected {other:?}"),
    }
    let mut bad = spec();
    bad.connections[0].to = "R1".into();
    match connection_assignments(&bad) {
        Err(VirtuosoError::Config(m)) => assert_eq!(m, "Bad to 'R1' in connection"),
        other => panic!("unexpected {other:?}"),
    }
}

#[test]
fn pins_target_counts() {
    let s = spec();
    assert_eq!(pin_commands(&s), vec![SchematicOps::new().create_pin("out", "output", (0, 5))]);
    assert_eq!(build_target(&s), "L/C/schematic");
    assert_eq!(build_connection_count(&s), 2);
    assert_eq!(load_file_skill("/tmp/a.il"), "load(\"/tmp/a.il\")");
}

#[test]
fn step_checks() {
    assert!(check_step(&VirtuosoResult::success("t".into()), "Failed").is_ok());
    match check_step(&VirtuosoResult::success(" nil ".into()), "Failed to open cellview") {
        Err(VirtuosoError::Execution(m)) => assert_eq!(m, "Failed to open cellview:  nil "),
        other => panic!("unexpected {other:?}"),
    }
    assert!(check_step(&VirtuosoResult::error(vec!["e".into()]), "x").is_err());
}

#[test]
fn command_line_values() {
    assert_eq!(parse_points(&vec!["1,2".into(), "-3,+4".into()]).unwrap(), vec![(1, 2), (-3, 4)]);
    match parse_points(&vec!["1,2".into(), "3;4".into(), "x,1".into()]) {
        Err(VirtuosoError::Config(m)) => assert_eq!(m, "Point '3;4' must be x,y"),
        other => panic!("unexpected {other:?}"),
    }
    match parse_points(&vec!["1,y".into()]) {
        Err(VirtuosoError::Config(m)) => assert_eq!(m, "Bad y: y"),
        other => panic!("unexpected {other:?}"),
    }
    assert_eq!(parse_key_val("a=b=c").unwrap(), ("a".to_string(), "b=c".to_string()));
    assert_eq!(parse_key_val("abc").unwrap_err(), "invalid KEY=VALUE: no '=' in 'abc'");
    let v = conn_commands("n", "M1:G", "M2:G").unwrap();
    assert_eq!(v, vec![SchematicOps::new().assign_net("M1", "G", "n"), SchematicOps::new().assign_net("M2", "G", "n")]);
    match conn_commands("n", "M1", "M2:G") {
        Err(VirtuosoError::Config(m)) => assert_eq!(m, "--from must be inst:term format"),
        other => panic!("unexpected {other:?}"),
    }
    let p = place_commands("lib/cell", "I0", 0, 0, &vec![]).unwrap();
    assert_eq!(p.len(), 1);
    assert!(place_commands("libcell", "I0", 0, 0, &vec![]).is_err());
}

#[test]
fn json_reply_texts() {
    let (a, b) = skill_json_texts(r#""[{\"name\":\"M1\"}]""#);
    assert_eq!(a, r#"[{\"name\":\"M1\"}]"#);
    assert_eq!(b, r#"[{"name":"M1"}]"#);
    match skill_json_error("bad", "raw") {
        VirtuosoError::Execution(m) => assert_eq!(m, "Failed to parse SKILL JSON output: bad. Raw: raw"),
        other => panic!("unexpected {other:?}"),
    }
}

#[test]
fn place_params_split_on_commas() {
    assert_eq!(
        parse_params("w=14u,l=1u"),
        vec![("w".to_string(), "14u".to_string()), ("l".to_string(), "1u".to_string())]
    );
    assert_eq!(parse_params(""), Vec::<(String, String)>::new());
    assert_eq!(parse_params("a=1,,bad,c=x=y"), vec![("a".into(), "1".into()), ("c".into(), "x=y".into())]);
}

#[test]
fn skill_json_reads_plain_and_escaped_replies() {
    let plain = parse_skill_json("\"[{\"name\":\"M1\"}]\"").unwrap();
    assert_eq!(plain[0]["name"], "M1");
    let escaped = parse_skill_json("\"[{\\\"name\\\":\\\"M2\\\"}]\"").unwrap();
    assert_eq!(escaped[0]["name"], "M2");
    match parse_skill_json("nil") {
        Err(VirtuosoError::Execution(m)) => {
            assert!(m.starts_with("Failed to parse SKILL JSON output: "));
            assert!(m.ends_with(". Raw: nil"));
        }
        other => panic!("unexpected {:?}", other),
    }
}
