use radcam_manager::actuators::CameraActuators;
use radcam_manager::api::{CameraID, FocusZoomPoint, FocusZoomPoints, ScriptFunction};
use radcam_manager::error::CoreError;
use radcam_manager::script::{
    export_script, generate_lua_script, script_changed, script_template, validate_lua,
    TEMPLATE_AFTER_CLOSEST_POINTS, TEMPLATE_AFTER_K_SCRIPT, TEMPLATE_AFTER_MARGIN_GAIN,
    TEMPLATE_AFTER_PREFIX, TEMPLATE_AFTER_TABLE_KEY, TEMPLATE_HEAD, TEMPLATE_TAIL,
};

#[test]
fn test_script_generation() {
    let contents = generate_lua_script(&CameraActuators::default(), "1").unwrap();
    println!("{}", contents);

    validate_lua(&contents).unwrap();
}

#[test]
fn script_holds_the_values_of_the_record() {
    let mut record = CameraActuators::default();
    record.parameters.camera_id = CameraID::CAM2;
    record.parameters.script_function = ScriptFunction::SCRIPT16;
    record.closest_points = FocusZoomPoints(vec![
        FocusZoomPoint { zoom: 1, focus: 2 },
        FocusZoomPoint { zoom: 30, focus: 40 },
    ]);
    record.furthest_points = FocusZoomPoints(vec![FocusZoomPoint { zoom: 5, focus: 6 }]);
    let text = generate_lua_script(&record, "0.75").unwrap();
    assert!(text.contains("local PARAM_TABLE_KEY = 75\n"));
    assert!(text.contains("local PARAM_PREFIX = \"RCAM2_\"\n"));
    assert!(text.contains("'MARGIN_GAIN', 0.75)"));
    assert!(text.contains("'K_SCRIPT', 109)"));
    assert!(text.contains(
        "local closest_points = {\n    {zoom = 1, focus = 2},\n    {zoom = 30, focus = 40}\n}\n"
    ));
    assert!(text.contains("local furthest_points = {\n    {zoom = 5, focus = 6}\n}\n"));
    assert!(!text.contains("{{"));
    assert_ne!(text, script_template());
    validate_lua(&text).unwrap();
}

#[test]
fn default_script_uses_the_first_table_key_and_prefix() {
    let text = generate_lua_script(&CameraActuators::default(), "1").unwrap();
    assert!(text.contains("local PARAM_TABLE_KEY = 74\n"));
    assert!(text.contains("local PARAM_PREFIX = \"RCAM1_\"\n"));
    assert!(text.contains("'K_SCRIPT', 94)"));
    assert!(text.contains("{zoom = 900, focus = 882},"));
    assert!(text.contains("{zoom = 2100, focus = 1930}\n}"));
}

#[test]
fn rendering_is_deterministic() {
    let a = CameraActuators::default();
    let b = CameraActuators::default();
    assert_eq!(generate_lua_script(&a, "1.5"), generate_lua_script(&b, "1.5"));
    let mut c = CameraActuators::default();
    c.parameters.focus_channel_min = 1;
    c.state.focus = Some(7);
    assert_eq!(generate_lua_script(&a, "1.5"), generate_lua_script(&c, "1.5"));
}

#[test]
fn validation_tells_lua_from_nonsense() {
    assert_eq!(validate_lua("return 1 + 1"), Ok(()));
    assert_eq!(validate_lua(""), Ok(()));
    assert!(matches!(validate_lua("local x = = 2"), Err(CoreError::ScriptInvalid(_))));
    assert!(matches!(validate_lua("function f( return end"), Err(CoreError::ScriptInvalid(_))));
}

#[test]
fn validation_does_not_run_the_script() {
    assert_eq!(validate_lua("error('must not run')"), Ok(()));
    assert_eq!(validate_lua("while true do end"), Ok(()));
}

#[test]
fn broken_substitution_is_an_invalid_script_and_nothing_is_written() {
    let record = CameraActuators::default();
    assert!(matches!(
        export_script(&record, "1 +", Some("old script"), true),
        Err(CoreError::ScriptInvalid(_))
    ));
    assert!(matches!(
        export_script(&record, "))", None, false),
        Err(CoreError::ScriptInvalid(_))
    ));
}

#[test]
fn export_writes_once_and_then_has_nothing_to_write() {
    let record = CameraActuators::default();
    let first = export_script(&record, "1", None, false).unwrap();
    let text = first.expect("a missing file is written");
    assert_eq!(export_script(&record, "1", Some(&text), false), Ok(None));
    assert_eq!(export_script(&record, "1", Some(&text), true), Ok(Some(text.clone())));
    assert_eq!(export_script(&record, "1", Some("something else"), false), Ok(Some(text.clone())));
    let mut changed = CameraActuators::default();
    changed.parameters.script_function = ScriptFunction::SCRIPT2;
    let second = export_script(&changed, "1", Some(&text), false).unwrap().unwrap();
    assert_ne!(second, text);
}

#[test]
fn script_file_decision() {
    assert!(script_changed("a", None, false));
    assert!(script_changed("a", Some("b"), false));
    assert!(!script_changed("a", Some("a"), false));
    assert!(script_changed("a", Some("a"), true));
}

#[test]
fn table_literal_is_exact() {
    assert_eq!(FocusZoomPoints(vec![]).to_lua(), "{\n\n}");
    assert_eq!(
        FocusZoomPoints(vec![FocusZoomPoint { zoom: 900, focus: 882 }]).to_lua(),
        "{\n    {zoom = 900, focus = 882}\n}"
    );
    assert_eq!(
        FocusZoomPoints(vec![
            FocusZoomPoint { zoom: 0, focus: 4294967295 },
            FocusZoomPoint { zoom: 10, focus: 20 },
            FocusZoomPoint { zoom: 1100, focus: 1253 },
        ])
        .to_lua(),
        "{\n    {zoom = 0, focus = 4294967295},\n    {zoom = 10, focus = 20},\n    {zoom = 1100, focus = 1253}\n}"
    );
}

#[test]
fn script_is_the_template_with_the_values_in_their_places() {
    let mut record = CameraActuators::default();
    record.parameters.camera_id = CameraID::CAM2;
    record.parameters.script_function = ScriptFunction::SCRIPT5;
    record.closest_points = FocusZoomPoints(vec![FocusZoomPoint { zoom: 7, focus: 8 }]);
    let text = generate_lua_script(&record, "0.5").unwrap();
    let expected = format!(
        "{}{}{}{}{}{}{}{}{}{}{}{}{}",
        TEMPLATE_HEAD,
        "75",
        TEMPLATE_AFTER_TABLE_KEY,
        "\"RCAM2_\"",
        TEMPLATE_AFTER_PREFIX,
        "0.5",
        TEMPLATE_AFTER_MARGIN_GAIN,
        "98",
        TEMPLATE_AFTER_K_SCRIPT,
        record.closest_points.to_lua(),
        TEMPLATE_AFTER_CLOSEST_POINTS,
        record.furthest_points.to_lua(),
        TEMPLATE_TAIL,
    );
    assert_eq!(text, expected);
}

#[test]
fn template_has_a_place_for_each_value() {
    let template = script_template();
    for name in [
        "param_table_key",
        "param_prefix",
        "margin_gain",
        "k_script",
        "closest_points",
        "furthest_points",
    ] {
        assert_eq!(template.matches(&format!("{{{{ {} }}}}", name)).count(), 1, "{}", name);
    }
    assert_eq!(template.matches("{{").count(), 6);
    assert_eq!(template.matches("{%").count(), 0);
    assert_eq!(template.matches("{#").count(), 0);
    assert!(template.starts_with(TEMPLATE_HEAD));
    assert!(template.ends_with(TEMPLATE_TAIL));
}

#[test]
fn the_engine_writes_a_real_as_the_shortest_text_of_its_double() {
    for gain in [1.0f32, 0.1, 1.5, 100.0, 1.0e10, 0.75, 2.25] {
        let mut context = tera::Context::new();
        context.insert("gain", &gain);
        let text = tera::Tera::one_off("{{ gain }}", &context, false).unwrap();
        assert_eq!(text, format!("{}", gain as f64));
    }
    let mut context = tera::Context::new();
    context.insert("gain", &1.0f32);
    assert_eq!(tera::Tera::one_off("{{ gain }}", &context, false).unwrap(), "1");
}
