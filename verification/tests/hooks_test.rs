use baker::error::Error;
use baker::hooks::{check_hook_status, get_hooks_dirs, get_path_if_exists, Output};
use baker::value::Value;

#[test]
fn test_get_hooks() {
    let template_dir = "/tmp/template";
    let (pre_hook, post_hook) = get_hooks_dirs(template_dir);

    assert_eq!(pre_hook, format!("{}/{}", template_dir, "hooks/pre_gen_project"));
    assert_eq!(post_hook, format!("{}/{}", template_dir, "hooks/post_gen_project"));
}

#[test]
fn hooks_of_a_directory_written_with_a_final_separator() {
    let (pre_hook, post_hook) = get_hooks_dirs("template/");
    assert_eq!(pre_hook, "template/hooks/pre_gen_project");
    assert_eq!(post_hook, "template/hooks/post_gen_project");
}

#[test]
fn get_path_if_exists_gives_a_line_or_nothing() {
    assert_eq!(get_path_if_exists("/t/hooks/pre_gen_project", true), "/t/hooks/pre_gen_project\n");
    assert_eq!(get_path_if_exists("/t/hooks/pre_gen_project", false), "");
}

#[test]
fn test_output_serialization() {
    let output = Output {
        template_dir: "/path/to/template".to_string(),
        output_dir: "/path/to/output".to_string(),
        answers: Some(Value::Object(vec![("key".to_string(), Value::String("value".to_string()))])),
    };

    let serialized = output.to_json();
    assert!(serialized.contains("template_dir"));
    assert!(serialized.contains("output_dir"));
    assert!(serialized.contains("answers"));
}

#[test]
fn the_payload_is_one_json_document() {
    let output = Output {
        template_dir: "/path/to/template".to_string(),
        output_dir: "/path/to/output".to_string(),
        answers: Some(Value::Object(vec![("key".to_string(), Value::String("value".to_string()))])),
    };
    let serialized = output.to_json();
    assert_eq!(
        serialized,
        "{\"template_dir\":\"/path/to/template\",\"output_dir\":\"/path/to/output\",\"answers\":{\"key\":\"value\"}}"
    );
    let parsed: serde_json::Value = serde_json::from_str(&serialized).unwrap();
    assert_eq!(parsed["template_dir"], "/path/to/template");
    assert_eq!(parsed["output_dir"], "/path/to/output");
    assert_eq!(parsed["answers"]["key"], "value");
}

#[test]
fn the_payload_before_resolution_has_null_answers() {
    let output = Output {
        template_dir: "C:\\templates\\\"web\"".to_string(),
        output_dir: "out".to_string(),
        answers: None,
    };
    let serialized = output.to_json();
    assert_eq!(
        serialized,
        "{\"template_dir\":\"C:\\\\templates\\\\\\\"web\\\"\",\"output_dir\":\"out\",\"answers\":null}"
    );
    let parsed: serde_json::Value = serde_json::from_str(&serialized).unwrap();
    assert_eq!(parsed["template_dir"], "C:\\templates\\\"web\"");
    assert!(parsed["answers"].is_null());
}

#[test]
fn a_hook_that_ends_badly_is_fatal() {
    assert!(check_hook_status(true, "exit status: 0").is_ok());
    match check_hook_status(false, "exit status: 3") {
        Err(Error::HookExecutionError { status }) => assert_eq!(status, "exit status: 3"),
        other => panic!("unexpected {:?}", other),
    }
}
