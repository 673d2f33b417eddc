use mihomo_tui::config::profile::{
    activate_document, ActivationError, ActivationStage, Profile, ProfileManager,
};
use mihomo_tui::config::tui::TuiConfigMode;
use mihomo_tui::document::{parse_json_doc, parse_yaml_doc, Doc};

fn sample_source() -> Doc {
    Doc::Obj(vec![
        ("port".to_string(), Doc::Num("7890".to_string())),
        ("log-level".to_string(), Doc::Str("info".to_string())),
    ])
}

#[test]
fn identity_pipeline_adds_exactly_the_mode_field() {
    let out = Profile::plan_activation(sample_source(), None, None, TuiConfigMode::Rule);
    let expected = Doc::Obj(vec![
        ("port".to_string(), Doc::Num("7890".to_string())),
        ("log-level".to_string(), Doc::Str("info".to_string())),
        ("mode".to_string(), Doc::Str("rule".to_string())),
    ]);
    assert_eq!(out, Ok(expected));
}

#[test]
fn existing_mode_field_is_replaced_in_place() {
    let source = Doc::Obj(vec![
        ("mode".to_string(), Doc::Str("global".to_string())),
        ("port".to_string(), Doc::Num("7890".to_string())),
    ]);
    let out = Profile::plan_activation(source, None, None, TuiConfigMode::Direct);
    let expected = Doc::Obj(vec![
        ("mode".to_string(), Doc::Str("direct".to_string())),
        ("port".to_string(), Doc::Num("7890".to_string())),
    ]);
    assert_eq!(out, Ok(expected));
}

#[test]
fn non_mapping_document_cannot_take_the_policy() {
    let out = Profile::plan_activation(
        Doc::Str("just a scalar".to_string()),
        None,
        None,
        TuiConfigMode::Rule,
    );
    assert_eq!(out, Err(ActivationError::NotMapping));
}

#[test]
fn fallback_activation_is_mode_only() {
    let out = ProfileManager::plan_fallback_activation(None, TuiConfigMode::Direct);
    let expected = Doc::Obj(vec![("mode".to_string(), Doc::Str("direct".to_string()))]);
    assert_eq!(out, Ok(expected));
}

#[test]
fn unbounded_loop_fails_with_a_script_error() {
    let script = "function main(config) { while (true) {} }";
    let out = Profile::plan_activation(sample_source(), Some(script), None, TuiConfigMode::Rule);
    match out {
        Err(ActivationError::Script { stage, .. }) => {
            assert_eq!(stage, ActivationStage::ProfileScript)
        }
        other => panic!("expected a script error, got {:?}", other),
    }
}

#[test]
fn syntax_error_fails_with_a_script_error() {
    let out = Profile::plan_activation(
        sample_source(),
        None,
        Some("function main( {"),
        TuiConfigMode::Rule,
    );
    match out {
        Err(ActivationError::Script { stage, .. }) => {
            assert_eq!(stage, ActivationStage::GlobalScript)
        }
        other => panic!("expected a script error, got {:?}", other),
    }
}

#[test]
fn missing_entry_point_fails_with_a_script_error() {
    let out = Profile::plan_activation(
        sample_source(),
        Some("var unrelated = 1;"),
        None,
        TuiConfigMode::Rule,
    );
    assert!(matches!(out, Err(ActivationError::Script { .. })));
}

#[test]
fn script_returning_no_value_fails_as_script_output() {
    // JSON.stringify(undefined) is undefined, which is not JSON text.
    let out = Profile::plan_activation(
        sample_source(),
        Some("function main(config) {}"),
        None,
        TuiConfigMode::Rule,
    );
    assert!(matches!(out, Err(ActivationError::ScriptOutput { stage: ActivationStage::ProfileScript })));
}

#[test]
fn script_transforms_the_document() {
    // The script receives the document as JSON text and returns a new tree.
    let script = "function main(config) { var o = JSON.parse(config); o.added = true; return o; }";
    let out = Profile::plan_activation(sample_source(), Some(script), None, TuiConfigMode::Global);
    let expected = Doc::Obj(vec![
        ("port".to_string(), Doc::Num("7890".to_string())),
        ("log-level".to_string(), Doc::Str("info".to_string())),
        ("added".to_string(), Doc::Bool(true)),
        ("mode".to_string(), Doc::Str("global".to_string())),
    ]);
    assert_eq!(out, Ok(expected));
}

#[test]
fn profile_script_runs_before_global_script() {
    let profile_script = "function main(config) { var o = JSON.parse(config); o.steps = \"p\"; return o; }";
    let global_script =
        "function main(config) { var o = JSON.parse(config); o.steps = o.steps + \"g\"; return o; }";
    let out = Profile::plan_activation(
        Doc::Obj(vec![]),
        Some(profile_script),
        Some(global_script),
        TuiConfigMode::Rule,
    );
    let expected = Doc::Obj(vec![
        ("steps".to_string(), Doc::Str("pg".to_string())),
        ("mode".to_string(), Doc::Str("rule".to_string())),
    ]);
    assert_eq!(out, Ok(expected));
}

#[test]
fn activate_document_rejects_bad_yaml() {
    let out = activate_document("]broken[", None, None, TuiConfigMode::Rule);
    assert_eq!(out, Err(ActivationError::SourceParse));
}

#[test]
fn activate_document_parses_and_injects() {
    let out = activate_document("port: 7890\n", None, None, TuiConfigMode::Rule);
    let expected = Doc::Obj(vec![
        ("port".to_string(), Doc::Num("7890".to_string())),
        ("mode".to_string(), Doc::Str("rule".to_string())),
    ]);
    assert_eq!(out, Ok(expected));
}

#[test]
fn yaml_parser_accepts_and_rejects() {
    assert!(parse_yaml_doc("a: 1\nb:\n  - x\n  - true\n").is_some());
    assert!(parse_yaml_doc("]broken[").is_none());
    let doc = parse_yaml_doc("a: hello").unwrap();
    assert_eq!(
        doc,
        Doc::Obj(vec![("a".to_string(), Doc::Str("hello".to_string()))])
    );
}

#[test]
fn json_parser_accepts_and_rejects() {
    assert_eq!(
        parse_json_doc("{\"k\": [1, null]}"),
        Some(Doc::Obj(vec![(
            "k".to_string(),
            Doc::Arr(vec![Doc::Num("1".to_string()), Doc::Null])
        )]))
    );
    assert!(parse_json_doc("nope").is_none());
}
