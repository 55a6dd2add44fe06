use bindgen_pio::ArgBuilder;
use bindgen_pio::adapter::apply;
use bindgen_pio::adapter::metadata_invocation_args;
use bindgen_pio::meta::MetaField;
use bindgen_pio::meta::PioError;

const SINGLE_ENV: &str = r#"{
    "envA": {
        "build_type": "release",
        "env_name": "envA",
        "libsource_dirs": ["src/lib"],
        "defines": ["FOO"],
        "includes": {"group1": ["inc/a"]},
        "cc_flags": ["-Os"],
        "cxx_flags": ["-Os"],
        "cc_path": "/usr/bin/cc",
        "cxx_path": "/usr/bin/c++"
    }
}"#;

fn applied(json: &str, cpp: bool, target: &str) -> Result<(Vec<String>, String), PioError> {
    apply(ArgBuilder::new(), json, cpp, target).map(|(b, name)| (b.args().clone(), name))
}

#[test]
fn single_env_c_argument_order() {
    let (args, env) = applied(SINGLE_ENV, false, "arm-none-eabi").unwrap();
    assert_eq!(env, "envA");
    assert_eq!(
        args,
        vec!["-target", "arm-none-eabi", "-Isrc/lib", "-DFOO", "-Iinc/a"]
    );
}

#[test]
fn cpp_language_args_come_before_target() {
    let (args, _) = applied(SINGLE_ENV, true, "arm-none-eabi").unwrap();
    assert_eq!(&args[0..2], &["-x", "c++"]);
    assert_eq!(&args[2..4], &["-target", "arm-none-eabi"]);
    assert_eq!(
        args,
        vec!["-x", "c++", "-target", "arm-none-eabi", "-Isrc/lib", "-DFOO", "-Iinc/a"]
    );
}

#[test]
fn empty_fields_append_only_lang_and_target() {
    let json = r#"{"envA": {"libsource_dirs": [], "defines": [], "includes": {}}}"#;
    let (args, _) = applied(json, true, "riscv32-unknown-elf").unwrap();
    assert_eq!(args, vec!["-x", "c++", "-target", "riscv32-unknown-elf"]);
    let (args_c, _) = applied(json, false, "riscv32-unknown-elf").unwrap();
    assert_eq!(args_c, vec!["-target", "riscv32-unknown-elf"]);
}

#[test]
fn non_mapping_top_level_is_a_shape_error() {
    for doc in ["[1, 2]", "\"envA\"", "3", "null", "true"] {
        assert_eq!(
            applied(doc, false, "arm-none-eabi").unwrap_err(),
            PioError::ShapeMismatch(MetaField::TopLevel)
        );
    }
}

#[test]
fn mapping_without_keys_is_a_shape_error() {
    assert_eq!(
        applied("{}", false, "arm-none-eabi").unwrap_err(),
        PioError::ShapeMismatch(MetaField::TopLevel)
    );
}

#[test]
fn two_envs_pick_the_documents_first_key() {
    let json = r#"{
        "envB": {"libsource_dirs": ["b"], "defines": [], "includes": {}},
        "envA": {"libsource_dirs": ["a"], "defines": [], "includes": {}}
    }"#;
    let (args, env) = applied(json, false, "arm-none-eabi").unwrap();
    assert_eq!(env, "envB");
    assert_eq!(args, vec!["-target", "arm-none-eabi", "-Ib"]);

    let swapped = r#"{
        "envA": {"libsource_dirs": ["a"], "defines": [], "includes": {}},
        "envB": {"libsource_dirs": ["b"], "defines": [], "includes": {}}
    }"#;
    let (args, env) = applied(swapped, false, "arm-none-eabi").unwrap();
    assert_eq!(env, "envA");
    assert_eq!(args, vec!["-target", "arm-none-eabi", "-Ia"]);
}

#[test]
fn repeated_runs_on_the_same_text_agree() {
    let first = applied(SINGLE_ENV, true, "arm-none-eabi");
    let second = applied(SINGLE_ENV, true, "arm-none-eabi");
    assert_eq!(first, second);
    let broken = applied("{not json", false, "x");
    assert_eq!(broken, applied("{not json", false, "x"));
}

#[test]
fn invalid_json_is_a_parse_error() {
    assert_eq!(
        applied("{not json", false, "arm-none-eabi").unwrap_err(),
        PioError::ParseFailed
    );
    assert_eq!(applied("", false, "arm-none-eabi").unwrap_err(), PioError::ParseFailed);
}

#[test]
fn bad_libsource_dirs_shapes_are_reported() {
    for env_body in [
        r#"{"defines": [], "includes": {}}"#,
        r#"{"libsource_dirs": "src", "defines": [], "includes": {}}"#,
        r#"{"libsource_dirs": ["src", 3], "defines": [], "includes": {}}"#,
        r#"{"libsource_dirs": null, "defines": [], "includes": {}}"#,
    ] {
        let json = format!("{{\"envA\": {}}}", env_body);
        assert_eq!(
            applied(&json, false, "t").unwrap_err(),
            PioError::ShapeMismatch(MetaField::LibsourceDirs)
        );
    }
}

#[test]
fn bad_defines_shapes_are_reported() {
    for env_body in [
        r#"{"libsource_dirs": [], "includes": {}}"#,
        r#"{"libsource_dirs": [], "defines": {"a": 1}, "includes": {}}"#,
        r#"{"libsource_dirs": [], "defines": [1], "includes": {}}"#,
    ] {
        let json = format!("{{\"envA\": {}}}", env_body);
        assert_eq!(
            applied(&json, false, "t").unwrap_err(),
            PioError::ShapeMismatch(MetaField::Defines)
        );
    }
}

#[test]
fn bad_includes_shapes_are_reported() {
    for env_body in [
        r#"{"libsource_dirs": [], "defines": []}"#,
        r#"{"libsource_dirs": [], "defines": [], "includes": ["inc"]}"#,
        r#"{"libsource_dirs": [], "defines": [], "includes": {"g": "inc"}}"#,
        r#"{"libsource_dirs": [], "defines": [], "includes": {"g": ["inc", 5]}}"#,
    ] {
        let json = format!("{{\"envA\": {}}}", env_body);
        assert_eq!(
            applied(&json, false, "t").unwrap_err(),
            PioError::ShapeMismatch(MetaField::Includes)
        );
    }
}

#[test]
fn environment_that_is_not_a_mapping_fails_on_the_first_field() {
    assert_eq!(
        applied(r#"{"envA": ["not", "a", "mapping"]}"#, false, "t").unwrap_err(),
        PioError::ShapeMismatch(MetaField::LibsourceDirs)
    );
}

#[test]
fn include_groups_keep_document_order() {
    let json = r#"{
        "envA": {
            "libsource_dirs": ["lib1", "lib2"],
            "defines": ["A=1", "B"],
            "includes": {
                "zeta": ["z1", "z2"],
                "alpha": ["a1"]
            }
        }
    }"#;
    let (args, _) = applied(json, false, "t").unwrap();
    assert_eq!(
        args,
        vec!["-target", "t", "-Ilib1", "-Ilib2", "-DA=1", "-DB", "-Iz1", "-Iz2", "-Ia1"]
    );
}

#[test]
fn apply_appends_after_existing_arguments() {
    let mut b = ArgBuilder::new();
    b.push("--existing".to_string());
    let json = r#"{"envA": {"libsource_dirs": ["src"], "defines": [], "includes": {}}}"#;
    let (b, _) = apply(b, json, false, "t").unwrap();
    assert_eq!(b.args(), &vec!["--existing", "-target", "t", "-Isrc"]);
}

#[test]
fn metadata_invocation_arguments() {
    assert_eq!(
        metadata_invocation_args(),
        vec!["project", "metadata", "--json-output"]
    );
}
