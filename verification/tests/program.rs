use edge_worker::program::{
    check_programs, parse_programs_env, parse_programs_str, ParseProgramsError, ProgramRef,
    ENV_PROGRAMS,
};
use edge_worker::server::loadout_failure;

fn decode(text: &str) -> Result<Vec<ProgramRef>, String> {
    let value: serde_json::Value = serde_json::from_str(text).map_err(|e| e.to_string())?;
    let items = value.as_array().ok_or("not a list")?;
    let mut out = Vec::new();
    for item in items {
        let name = item["name"].as_str().ok_or("name")?;
        let version = item["version"].as_u64().ok_or("version")?;
        out.push(ProgramRef::new(name, version as u32));
    }
    Ok(out)
}

#[test]
fn parses_a_basic_list() {
    let raw = r#"[{"name":"sha256","version":1},{"name":"keccak","version":2}]"#;
    let parsed = parse_programs_str(raw, decode).unwrap();
    assert_eq!(
        parsed,
        vec![ProgramRef::new("sha256", 1), ProgramRef::new("keccak", 2),]
    );
}

#[test]
fn ignores_surrounding_whitespace() {
    let raw = "  [ {\"name\":\"a\",\"version\":1} ]  ";
    let parsed = parse_programs_str(raw, decode).unwrap();
    assert_eq!(parsed, vec![ProgramRef::new("a", 1)]);
}

#[test]
fn rejects_empty_string() {
    assert!(matches!(
        parse_programs_str("", decode),
        Err(ParseProgramsError::Missing)
    ));
    assert!(matches!(
        parse_programs_str("   ", decode),
        Err(ParseProgramsError::Missing)
    ));
}

#[test]
fn rejects_empty_list() {
    assert!(matches!(
        parse_programs_str("[]", decode),
        Err(ParseProgramsError::Empty)
    ));
}

#[test]
fn rejects_duplicate() {
    let raw = r#"[{"name":"a","version":1},{"name":"a","version":1}]"#;
    match parse_programs_str(raw, decode) {
        Err(ParseProgramsError::Duplicate(p)) => {
            assert_eq!(p, ProgramRef::new("a", 1));
        }
        Err(other) => panic!("expected Duplicate, got {}", other.message()),
        Ok(other) => panic!("expected Duplicate, got {other:?}"),
    }
}

#[test]
fn allows_same_name_different_version() {
    let raw = r#"[{"name":"a","version":1},{"name":"a","version":2}]"#;
    let parsed = parse_programs_str(raw, decode).unwrap();
    assert_eq!(parsed.len(), 2);
}

#[test]
fn rejects_invalid_json() {
    assert!(matches!(
        parse_programs_str("not json", decode),
        Err(ParseProgramsError::InvalidJson(_))
    ));
}

#[test]
fn unset_or_blank_variable_is_an_empty_loadout() {
    assert_eq!(ENV_PROGRAMS, "EDGE_PROGRAMS");
    assert_eq!(parse_programs_env(None, decode).unwrap(), vec![]);
    assert_eq!(parse_programs_env(Some(" \t\n"), decode).unwrap(), vec![]);
    let raw = r#"[{"name":"a","version":7}]"#;
    assert_eq!(
        parse_programs_env(Some(raw), decode).unwrap(),
        vec![ProgramRef::new("a", 7)]
    );
    match parse_programs_env(Some("[]"), decode) {
        Err(e) => {
            let text = loadout_failure(&e);
            assert_eq!(text, format!("Failed to parse EDGE_PROGRAMS: {}", e.message()));
        }
        Ok(_) => panic!("an empty list is malformed"),
    }
}

#[test]
fn a_set_variable_is_parsed_as_its_text() {
    let show = |r: Result<Vec<ProgramRef>, ParseProgramsError>| r.map_err(|e| e.message());
    for raw in [
        r#" [{"name":"a","version":7},{"name":"a","version":8}] "#,
        r#"[{"name":"a","version":7},{"name":"a","version":7}]"#,
        "[]",
        "not json",
    ] {
        assert_eq!(
            show(parse_programs_env(Some(raw), decode)),
            show(parse_programs_str(raw, decode)),
            "{raw}"
        );
    }
}

#[test]
fn programs_are_rendered_with_their_version() {
    assert_eq!(ProgramRef::new("sha256", 12).render(), "sha256@v12");
    assert_eq!(ProgramRef::new("x", u32::MAX).render(), "x@v4294967295");
    assert!(ProgramRef::new("x", 1).same(&ProgramRef::new("x", 1)));
    assert!(!ProgramRef::new("x", 1).same(&ProgramRef::new("x", 2)));
    assert!(!ProgramRef::new("x", 1).same(&ProgramRef::new("y", 1)));
}

#[test]
fn the_first_program_seen_again_is_the_duplicate() {
    let list = vec![
        ProgramRef::new("a", 1),
        ProgramRef::new("b", 1),
        ProgramRef::new("b", 1),
        ProgramRef::new("a", 1),
    ];
    match check_programs(Ok(list)) {
        Err(ParseProgramsError::Duplicate(p)) => assert_eq!(p, ProgramRef::new("b", 1)),
        _ => panic!("expected Duplicate"),
    }
    match check_programs(Err("broken".to_string())) {
        Err(ParseProgramsError::InvalidJson(e)) => assert_eq!(e, "broken"),
        _ => panic!("expected InvalidJson"),
    }
}
