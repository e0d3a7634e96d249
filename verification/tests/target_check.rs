//! The check of the target at the construction of a context.

use rustc_codegen_spirv::codegen_args::{CodegenArgs, Parsed};
use rustc_codegen_spirv::codegen_cx::CodegenCx;
use rustc_codegen_spirv::diag::Level;
use rustc_codegen_spirv::target::{check_target, TargetInfo, TargetTuple};
use rustc_codegen_spirv::target_feature::{
    comes_before, parse_feature, sort_names, TargetFeature,
};

fn target(tuple: &str, expected: &str, found: &str, triple: TargetTuple) -> TargetInfo {
    TargetInfo {
        tuple: tuple.to_string(),
        triple,
        expected_spec: expected.to_string(),
        found_spec: found.to_string(),
        pointer_size_bits: 32,
        spirv_version: (1, 5),
        target_features: Vec::new(),
    }
}

fn args() -> CodegenArgs {
    match CodegenArgs::parse(&Vec::new(), None) {
        Ok(Parsed::Args(a)) => a,
        other => panic!("{:?}", other),
    }
}

#[test]
fn a_target_outside_spirv_is_not_supported() {
    let t = target("x86_64-unknown-linux-gnu", "{}", "{}", TargetTuple::TargetTuple);
    let d = check_target(&t).unwrap();
    assert_eq!(d.level, Level::Fatal);
    assert_eq!(
        d.message,
        "non-SPIR-V target `x86_64-unknown-linux-gnu` not supported by `rustc_codegen_spirv`"
    );
    assert_eq!(CodegenCx::new(&t, args()).unwrap_err(), d);
    let t = target("spirv", "{}", "{}", TargetTuple::TargetTuple);
    assert!(check_target(&t).is_some());
}

#[test]
fn an_equal_specification_passes() {
    let expected = r#"{"arch": "spirv", "env": "vulkan1.2", "n": 1}"#;
    let found = r#"{ "n":1, "env":"vulkan1.2", "arch":"spirv" }"#;
    let t = target("spirv-unknown-vulkan1.2", expected, found, TargetTuple::TargetTuple);
    assert_eq!(check_target(&t), None);
    let cx = CodegenCx::new(&t, args()).unwrap();
    assert_eq!(cx.pointer_size_bits, 32);
    assert_eq!(cx.spirv_version, (1, 5));
    assert_eq!(cx.builder.next_id, 1);
    assert!(cx.instruction_table.get("IAdd").is_some());
    assert!(!cx.i8_i16_atomics_allowed);
    let by_file = TargetTuple::TargetJson {
        path_for_rustdoc: "t.json".to_string(),
        contents: found.to_string(),
    };
    let t = target("spirv-unknown-vulkan1.2", expected, "not read", by_file);
    assert_eq!(check_target(&t), None);
}

#[test]
fn a_mismatch_names_the_keys_that_differ() {
    let expected = r#"{"arch": "spirv", "env": "vulkan1.2", "os": "unknown", "a": 1}"#;
    let found = r#"{"arch": "spirv", "env": "vulkan1.1", "z": true, "a": 1.0}"#;
    let t = target("spirv-unknown-vulkan1.2", expected, found, TargetTuple::TargetTuple);
    let d = check_target(&t).unwrap();
    assert_eq!(d.level, Level::Fatal);
    assert_eq!(d.message, "mismatched `spirv-unknown-vulkan1.2` target spec");
    assert_eq!(d.helps, vec![r#"mismatched properties: "a", "env", "os", "z""#.to_string()]);
    assert_eq!(d.notes.len(), 2);
    assert!(d.notes[0].starts_with("expected (built into `rustc_codegen_spirv`):\n{\n"));
    assert!(d.notes[0].contains("  \"env\": \"vulkan1.2\""));
    assert!(d.notes[1].starts_with("found:\n{\n"));
    assert!(d.notes[1].contains("  \"z\": true"));
}

#[test]
fn a_mismatch_shows_the_file_that_was_given() {
    let expected = r#"{"env": "vulkan1.2"}"#;
    let contents = "{\"env\":\n \"opengl4.5\"}";
    let by_file = |path: &str| TargetTuple::TargetJson {
        path_for_rustdoc: path.to_string(),
        contents: contents.to_string(),
    };
    let t = target("spirv-unknown-vulkan1.2", expected, expected, by_file("dir/t.json"));
    let d = check_target(&t).unwrap();
    assert_eq!(d.notes[1], format!("found (`dir/t.json`):\n{}", contents));
    assert_eq!(d.helps, vec![r#"mismatched properties: "env""#.to_string()]);
    let t = target("spirv-unknown-vulkan1.2", expected, expected, by_file(""));
    let d = check_target(&t).unwrap();
    assert_eq!(d.notes[1], "found:\n{\n  \"env\": \"opengl4.5\"\n}");
}

#[test]
fn a_specification_that_is_no_json_is_fatal() {
    let t = target("spirv-unknown-vulkan1.2", "{", "{}", TargetTuple::TargetTuple);
    let d = check_target(&t).unwrap();
    assert_eq!(d.level, Level::Fatal);
    assert_eq!(d.message, "target spec of `spirv-unknown-vulkan1.2` is not valid JSON");
    let t = target("spirv-unknown-vulkan1.2", "{}", "nope", TargetTuple::TargetTuple);
    assert_eq!(check_target(&t).map(|d| d.message), Some(d.message));
}

#[test]
fn keys_with_quotes_are_written_with_escapes() {
    let expected = r#"{"a\"b": 1}"#;
    let found = r#"{"a\"b": 2}"#;
    let t = target("spirv-unknown-vulkan1.2", expected, found, TargetTuple::TargetTuple);
    let d = check_target(&t).unwrap();
    assert_eq!(d.helps, vec![r#"mismatched properties: "a\"b""#.to_string()]);
}

#[test]
fn features_are_read_in_the_order_of_their_names() {
    let mut t = target("spirv-unknown-vulkan1.2", "{\"a\": 1}", "{\"a\": 1}", TargetTuple::TargetTuple);
    t.target_features = vec![
        "ext:SPV_KHR_ray_query".to_string(),
        "Int8".to_string(),
        "Float64".to_string(),
        "ext:SPV_EXT_a".to_string(),
    ];
    let cx = CodegenCx::new(&t, args()).unwrap();
    assert!(cx.dcx.emitted.is_empty());
    assert_eq!(
        cx.features,
        vec![
            TargetFeature::Capability(10),
            TargetFeature::Capability(39),
            TargetFeature::Extension("SPV_EXT_a".to_string()),
            TargetFeature::Extension("SPV_KHR_ray_query".to_string()),
        ]
    );
}

#[test]
fn a_feature_of_no_name_is_an_error_and_leaves_none() {
    let mut t = target("spirv-unknown-vulkan1.2", "{}", "{}", TargetTuple::TargetTuple);
    t.target_features =
        vec!["Shader".to_string(), "Zzz".to_string(), "Bogus".to_string(), "Int8".to_string()];
    let cx = CodegenCx::new(&t, args()).unwrap();
    assert!(cx.features.is_empty());
    assert_eq!(cx.dcx.emitted.len(), 1);
    assert_eq!(cx.dcx.emitted[0].level, Level::Error);
    assert_eq!(cx.dcx.emitted[0].message, "Invalid Capability: `Bogus`");
    assert_eq!(cx.dcx.emitted[0].span, None);
}

#[test]
fn names_are_sorted_as_the_standard_library_sorts_them() {
    let names: Vec<String> =
        ["b", "", "ab", "a", "B", "abc", "a", "\u{e9}", "z", "ext:x"].iter().map(|s| s.to_string()).collect();
    let mut expected = names.clone();
    expected.sort_unstable();
    assert_eq!(sort_names(&names), expected);
    for a in &names {
        for b in &names {
            assert_eq!(comes_before(a, b), a < b, "{a:?} {b:?}");
        }
    }
    assert_eq!(parse_feature("ext:"), Ok(TargetFeature::Extension(String::new())));
    assert_eq!(parse_feature("Shader"), Ok(TargetFeature::Capability(1)));
    assert_eq!(parse_feature("shader"), Err("Invalid Capability: `shader`".to_string()));
}
