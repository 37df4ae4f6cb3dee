use virtuoso_cli::envfile::{
    config_env_text, config_field_defs, env_lookup, legacy_field_defs, lines_of, load_config_fields,
    load_legacy_config_fields, parse_env,
};

#[test]
fn lines_match_std() {
    for s in ["", "a", "a\n", "a\n\nb", "foo\r\nbar\n\nbaz\r", "\n", "x\r", "\r\n\r\n"] {
        let expect: Vec<String> = s.lines().map(|l| l.to_string()).collect();
        assert_eq!(lines_of(s), expect, "{s:?}");
    }
}

#[test]
fn env_entries_skip_comments_and_trim() {
    let content = "# comment\nVB_PORT = 7000\nnot a setting\n  VB_REMOTE_HOST=eda=1  \nVB_PORT=7001\n";
    let entries = parse_env(content);
    assert_eq!(
        entries,
        vec![
            ("VB_PORT".to_string(), "7000".to_string()),
            ("VB_REMOTE_HOST".to_string(), "eda=1".to_string()),
            ("VB_PORT".to_string(), "7001".to_string()),
        ]
    );
    assert_eq!(env_lookup(&entries, "VB_PORT"), Some("7001".to_string()));
    assert_eq!(env_lookup(&entries, "VB_TIMEOUT"), None);
}

#[test]
fn fields_prefer_file_then_process() {
    let entries = parse_env("VB_PORT=1\n");
    let mut process = vec![None; 12];
    process[2] = Some("2".to_string());
    process[3] = Some("40".to_string());
    let fields = load_config_fields(&entries, &process);
    assert_eq!(fields.len(), 12);
    assert_eq!(fields[2].key, "VB_PORT");
    assert_eq!(fields[2].value, "1");
    assert_eq!(fields[3].value, "40");
    assert_eq!(fields[0].value, "");
    assert_eq!(fields[7].key, "VB_SSH_KEY");
    let legacy = load_legacy_config_fields(&entries, &vec![None; 10]);
    assert_eq!(legacy.len(), 10);
    assert_eq!(legacy[6].key, "VB_SPECTRE_CMD");
    assert_eq!(legacy[6].hint, "Spectre binary path (default: spectre)");
}

#[test]
fn field_tables() {
    let defs = config_field_defs();
    assert_eq!(defs[0], ("VB_REMOTE_HOST", "SSH remote hostname or alias"));
    assert_eq!(defs[11], ("VB_PROFILE", "Config profile name"));
    let legacy = legacy_field_defs();
    let keys: Vec<&str> = legacy.iter().map(|d| d.0).collect();
    assert_eq!(
        keys,
        vec!["VB_REMOTE_HOST", "VB_REMOTE_USER", "VB_PORT", "VB_TIMEOUT", "VB_JUMP_HOST", "VB_JUMP_USER",
             "VB_SPECTRE_CMD", "VB_SPECTRE_ARGS", "VB_KEEP_REMOTE_FILES", "VB_PROFILE"]
    );
}

#[test]
fn saved_env_text() {
    let settings = vec![("A".to_string(), "1".to_string()), ("B".to_string(), String::new())];
    assert_eq!(config_env_text(&settings), "# Virtuoso CLI Configuration\nA=1\n# B=\n");
}

#[test]
fn saved_text_reads_back() {
    let settings = vec![("A".to_string(), "x y".to_string()), ("B".to_string(), String::new())];
    let entries = parse_env(&config_env_text(&settings));
    assert_eq!(env_lookup(&entries, "A"), Some("x y".to_string()));
    assert_eq!(env_lookup(&entries, "B"), None);
}
