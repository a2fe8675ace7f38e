use baker::error::Error;
use baker::ignore::{parse_bakerignore_file, IgnoreMatcher};
use baker::renderer::MiniJinjaRenderer;
use baker::template::operation::TemplateOperation;
use baker::template::processor::{
    join_under, parts_are_valid, strip_root, EntryPlan, TemplateProcessor,
};
use baker::value::Value;

const TEMPLATE_ROOT: &str = "/template_root";
const OUTPUT_ROOT: &str = "/output_root";

fn answers(pairs: &[(&str, Value)]) -> Value {
    Value::Object(pairs.iter().map(|(k, v)| (k.to_string(), v.duplicate())).collect())
}

fn text(s: &str) -> Value {
    Value::String(s.to_string())
}

fn no_ignore_file() -> IgnoreMatcher {
    parse_bakerignore_file(None).unwrap()
}

fn under_template(name: &str) -> String {
    format!("{}/{}", TEMPLATE_ROOT, name)
}

fn under_output(name: &str) -> String {
    format!("{}/{}", OUTPUT_ROOT, name)
}

#[test]
fn processor_it_works_1() {
    let answers = answers(&[("file_name", text("hello_world")), ("greetings", text("Hello, World"))]);
    let file_path = under_template("{{file_name}}.txt.baker.j2");

    let engine = MiniJinjaRenderer::new();
    let ignored_patterns = no_ignore_file();
    let processor = TemplateProcessor::new(
        &engine,
        TEMPLATE_ROOT,
        OUTPUT_ROOT,
        &answers,
        &ignored_patterns,
        ".baker.j2",
    );

    let result = processor.process(&file_path, true, false, "{{greetings}}").unwrap();

    match result {
        TemplateOperation::Write { target, content, target_exists } => {
            assert_eq!(target, under_output("hello_world.txt"));
            assert_eq!(content, "Hello, World");
            assert!(!target_exists);
        }
        _ => panic!("Expected Write operation"),
    }
}

#[test]
fn processor_it_works_3() {
    let answers = answers(&[]);
    let file_path = under_template("hello_world.txt");

    let engine = MiniJinjaRenderer::new();
    let ignored_patterns = no_ignore_file();
    let processor = TemplateProcessor::new(
        &engine,
        TEMPLATE_ROOT,
        OUTPUT_ROOT,
        &answers,
        &ignored_patterns,
        ".baker.j2",
    );

    let result = processor.process(&file_path, true, false, "Hello, World").unwrap();

    match result {
        TemplateOperation::Copy { source, target, target_exists } => {
            assert_eq!(target, under_output("hello_world.txt"));
            assert_eq!(source, under_template("hello_world.txt"));
            assert!(!target_exists);
        }
        _ => panic!("Expected Copy operation"),
    }
}

#[test]
fn processor_it_works_4() {
    let answers =
        answers(&[("directory_name", text("hello")), ("greetings", text("Hello, World"))]);
    let file_path = under_template("{{directory_name}}/file_name.txt.baker.j2");

    let engine = MiniJinjaRenderer::new();
    let ignored_patterns = no_ignore_file();
    let processor = TemplateProcessor::new(
        &engine,
        TEMPLATE_ROOT,
        OUTPUT_ROOT,
        &answers,
        &ignored_patterns,
        ".baker.j2",
    );

    let result = processor.process(&file_path, true, false, "{{greetings}}").unwrap();

    match result {
        TemplateOperation::Write { content, target, target_exists } => {
            assert_eq!(content, "Hello, World");
            assert_eq!(target, under_output("hello/file_name.txt"));
            assert!(!target_exists);
        }
        _ => panic!("Expected Write operation"),
    }
}

#[test]
fn processor_it_works_5() {
    let answers = answers(&[("file_name", text("world.txt"))]);
    let file_path = under_template("{{directory_name}}/{{file_name}}.txt");

    let engine = MiniJinjaRenderer::new();
    let ignored_patterns = no_ignore_file();
    let processor = TemplateProcessor::new(
        &engine,
        TEMPLATE_ROOT,
        OUTPUT_ROOT,
        &answers,
        &ignored_patterns,
        ".baker.j2",
    );

    let result = processor.process(&file_path, true, false, "{{greetings}}");
    match result {
        Err(Error::ProcessError { e, .. }) => {
            assert_eq!(e, "The rendered path is not valid");
        }
        _ => panic!("Expected ProcessError"),
    }
}

#[test]
fn processor_it_works_6() {
    let answers = answers(&[("create_dir", Value::Bool(true))]);
    let nested_directory_path = under_template("{% if create_dir %}hello{% endif %}");

    let engine = MiniJinjaRenderer::new();
    let ignored_patterns = no_ignore_file();
    let processor = TemplateProcessor::new(
        &engine,
        TEMPLATE_ROOT,
        OUTPUT_ROOT,
        &answers,
        &ignored_patterns,
        ".baker.j2",
    );

    let result = processor.process(&nested_directory_path, false, false, "").unwrap();
    match result {
        TemplateOperation::CreateDirectory { target, target_exists } => {
            assert_eq!(target, under_output("hello"));
            assert!(!target_exists);
        }
        _ => panic!("Expected CreateDirectory operation"),
    }
}

#[test]
fn processor_it_works_7() {
    let answers = answers(&[("create_dir", Value::Bool(false))]);
    let nested_directory_path = under_template("{% if create_dir %}hello{% endif %}");

    let engine = MiniJinjaRenderer::new();
    let ignored_patterns = no_ignore_file();
    let processor = TemplateProcessor::new(
        &engine,
        TEMPLATE_ROOT,
        OUTPUT_ROOT,
        &answers,
        &ignored_patterns,
        ".baker.j2",
    );

    let result = processor.process(&nested_directory_path, false, false, "");
    match result {
        Err(Error::ProcessError { e, .. }) => {
            assert_eq!(e, "The rendered path is not valid");
        }
        _ => panic!("Expected ProcessError"),
    }
}

#[test]
fn processor_it_works_8() {
    let answers = answers(&[("create_dir", Value::Bool(true))]);
    let file_path = under_template("{% if create_dir %}hello{% endif %}/file_name.txt");

    let engine = MiniJinjaRenderer::new();
    let ignored_patterns = no_ignore_file();
    let processor = TemplateProcessor::new(
        &engine,
        TEMPLATE_ROOT,
        OUTPUT_ROOT,
        &answers,
        &ignored_patterns,
        ".baker.j2",
    );

    let result = processor.process(&file_path, true, false, "{{greetings}}").unwrap();
    match result {
        TemplateOperation::Copy { source, target, target_exists } => {
            assert_eq!(target, under_output("hello/file_name.txt"));
            assert_eq!(source, file_path);
            assert!(!target_exists);
        }
        _ => panic!("Expected Copy operation"),
    }
}

#[test]
fn processor_it_works_9() {
    let answers = answers(&[
        ("file_name", text("hello_world.txt.baker.j2")),
        ("greetings", text("Hello, World")),
    ]);
    let file_path = under_template("{{file_name}}");

    let engine = MiniJinjaRenderer::new();
    let ignored_patterns = no_ignore_file();
    let processor = TemplateProcessor::new(
        &engine,
        TEMPLATE_ROOT,
        OUTPUT_ROOT,
        &answers,
        &ignored_patterns,
        ".baker.j2",
    );

    let result = processor.process(&file_path, true, false, "{{greetings}}").unwrap();

    match result {
        TemplateOperation::Write { target, content, target_exists } => {
            assert_eq!(target, under_output("hello_world.txt"));
            assert_eq!(content, "Hello, World");
            assert!(!target_exists);
        }
        _ => panic!("Expected Write operation"),
    }
}

#[test]
fn it_works_10() {
    let answers = answers(&[("greetings", text("Hello, World"))]);
    let file_path = under_template("hello_world.j2");

    let engine = MiniJinjaRenderer::new();
    let ignored_patterns = no_ignore_file();
    let processor = TemplateProcessor::new(
        &engine,
        TEMPLATE_ROOT,
        OUTPUT_ROOT,
        &answers,
        &ignored_patterns,
        ".baker.j2",
    );

    let result = processor.process(&file_path, true, false, "{{greetings}}").unwrap();

    match result {
        TemplateOperation::Copy { target, target_exists, source } => {
            assert_eq!(target, under_output("hello_world.j2"));
            assert_eq!(source, file_path);
            assert!(!target_exists);
        }
        _ => panic!("Expected Copy operation"),
    }
}

#[test]
fn it_works_11() {
    let answers = answers(&[("first_name", text("Ali")), ("last_name", text("Aliyev"))]);
    let file_path = under_template("README.baker.j2");

    let engine = MiniJinjaRenderer::new();
    let ignored_patterns = no_ignore_file();
    let processor = TemplateProcessor::new(
        &engine,
        TEMPLATE_ROOT,
        OUTPUT_ROOT,
        &answers,
        &ignored_patterns,
        ".baker.j2",
    );

    let result =
        processor.process(&file_path, true, false, "{{first_name}} {{last_name}}").unwrap();

    match result {
        TemplateOperation::Write { target, target_exists, content } => {
            assert_eq!(target, under_output("README"));
            assert_eq!(content, "Ali Aliyev");
            assert!(!target_exists);
        }
        _ => panic!("Expected Copy operation"),
    }
}

#[test]
fn it_works_12() {
    let answers = answers(&[
        ("first_name", text("Ali")),
        ("last_name", text("Aliyev")),
        ("file_name", text("README")),
    ]);
    let file_path = under_template("{{file_name}}.baker.j2");

    let engine = MiniJinjaRenderer::new();
    let ignored_patterns = no_ignore_file();
    let processor = TemplateProcessor::new(
        &engine,
        TEMPLATE_ROOT,
        OUTPUT_ROOT,
        &answers,
        &ignored_patterns,
        ".baker.j2",
    );

    let result =
        processor.process(&file_path, true, false, "{{first_name}} {{last_name}}").unwrap();

    match result {
        TemplateOperation::Write { target, target_exists, content } => {
            assert_eq!(target, under_output("README"));
            assert_eq!(content, "Ali Aliyev");
            assert!(!target_exists);
        }
        _ => panic!("Expected Copy operation"),
    }
}

#[test]
fn it_works_14() {
    let answers = answers(&[]);
    let file_path = under_template("{{file_name}}.baker.j2");

    let engine = MiniJinjaRenderer::new();
    let ignored_patterns = no_ignore_file();
    let processor = TemplateProcessor::new(
        &engine,
        TEMPLATE_ROOT,
        OUTPUT_ROOT,
        &answers,
        &ignored_patterns,
        ".baker.j2",
    );

    let result = processor.process(&file_path, true, false, "{{first_name}} {{last_name}}");

    match result {
        Err(Error::ProcessError { e, .. }) => {
            assert_eq!(e, "The rendered path is not valid");
        }
        _ => panic!("Expected ProcessError"),
    }
}

#[test]
fn a_file_named_by_the_suffix_alone_is_rejected_and_a_directory_is_not() {
    let answers = answers(&[]);
    let engine = MiniJinjaRenderer::new();
    let ignored_patterns = no_ignore_file();
    let processor = TemplateProcessor::new(
        &engine,
        TEMPLATE_ROOT,
        OUTPUT_ROOT,
        &answers,
        &ignored_patterns,
        ".baker.j2",
    );
    match processor.process(&under_template("sub/.baker.j2"), true, false, "x") {
        Err(Error::ProcessError { source_path, e }) => {
            assert_eq!(source_path, under_template("sub/.baker.j2"));
            assert_eq!(e, "The rendered path is not valid");
        }
        other => panic!("unexpected {:?}", other),
    }
    assert!(processor.is_suffix_alone("a/.baker.j2"));
    assert!(processor.is_suffix_alone(".baker.j2"));
    assert!(!processor.is_suffix_alone("a/b.baker.j2"));
    assert!(!processor.is_suffix_alone("a/baker.j2"));
    assert!(matches!(
        processor.process(&under_template(".baker.j2"), false, false, "").unwrap(),
        TemplateOperation::CreateDirectory { .. }
    ));
    assert!(matches!(
        processor.process(&under_template("a.baker.j2"), true, false, "x").unwrap(),
        TemplateOperation::Write { .. }
    ));
}

#[test]
fn it_works_15() {
    let answers = answers(&[]);
    let file_path = under_template("{{file_name}}");

    let engine = MiniJinjaRenderer::new();
    let ignored_patterns = no_ignore_file();
    let processor = TemplateProcessor::new(
        &engine,
        TEMPLATE_ROOT,
        OUTPUT_ROOT,
        &answers,
        &ignored_patterns,
        ".baker.j2",
    );

    let result = processor.process(&file_path, true, false, "{{first_name}} {{last_name}}");

    match result {
        Err(Error::ProcessError { e, .. }) => {
            assert_eq!(e, "The rendered path is not valid");
        }
        _ => panic!("Expected ProcessError"),
    }
}

#[test]
fn test_remove_template_suffix() {
    let engine = MiniJinjaRenderer::new();
    let bakerignore = no_ignore_file();
    let answers = answers(&[]);
    let processor = TemplateProcessor::new(
        &engine,
        TEMPLATE_ROOT,
        OUTPUT_ROOT,
        &answers,
        &bakerignore,
        ".baker.j2",
    );

    // Case 1: Path ends with suffix
    let result = processor.remove_template_suffix("foo/bar.baker.j2");
    assert_eq!(result, "foo/bar");

    // Case 2: Path does not end with suffix
    let result = processor.remove_template_suffix("foo/bar.txt");
    assert_eq!(result, "foo/bar.txt");
}

#[test]
fn remove_template_suffix_takes_it_off_only_once() {
    let engine = MiniJinjaRenderer::new();
    let bakerignore = no_ignore_file();
    let answers = answers(&[]);
    let processor = TemplateProcessor::new(
        &engine,
        TEMPLATE_ROOT,
        OUTPUT_ROOT,
        &answers,
        &bakerignore,
        ".baker.j2",
    );
    assert_eq!(processor.remove_template_suffix("a.baker.j2.baker.j2"), "a.baker.j2");
    assert_eq!(processor.remove_template_suffix(".baker.j2"), "");
    assert_eq!(processor.remove_template_suffix("baker.j2"), "baker.j2");
}

#[test]
fn test_get_target_path_strip_prefix_error() {
    let engine = MiniJinjaRenderer::new();
    let bakerignore = no_ignore_file();
    let answers = answers(&[]);
    let processor = TemplateProcessor::new(
        &engine,
        TEMPLATE_ROOT,
        OUTPUT_ROOT,
        &answers,
        &bakerignore,
        ".baker.j2",
    );
    // rendered_entry does not start with template_root, so strip_prefix will fail
    let rendered_entry = "/not_template_root/file.txt";
    let template_entry = "/template_root/file.txt";
    let result = processor.get_target_path(rendered_entry, template_entry);
    match result {
        Err(Error::ProcessError { source_path, e }) => {
            assert_eq!(source_path, template_entry.to_string());
            assert!(e.contains("prefix"));
        }
        _ => panic!("Expected ProcessError from strip_prefix failure"),
    }
}

#[test]
fn test_process_template_file_write_operation() {
    let answers = answers(&[("name", text("test"))]);
    let bakerignore = no_ignore_file();
    let engine = MiniJinjaRenderer::new();
    let processor = TemplateProcessor::new(
        &engine,
        TEMPLATE_ROOT,
        OUTPUT_ROOT,
        &answers,
        &bakerignore,
        ".baker.j2",
    );
    let file_path = under_template("test.txt.baker.j2");
    let result = processor.process(&file_path, true, false, "{{ name }}").unwrap();
    match result {
        TemplateOperation::Write { target, content, target_exists } => {
            assert_eq!(target, under_output("test.txt"));
            assert_eq!(content, "test");
            assert!(!target_exists);
        }
        _ => panic!("Expected Write operation for template file"),
    }
}

#[test]
fn test_process_true_true_write_branch() {
    let answers = answers(&[("username", text("copilot"))]);
    let bakerignore = no_ignore_file();
    let engine = MiniJinjaRenderer::new();
    let processor = TemplateProcessor::new(
        &engine,
        TEMPLATE_ROOT,
        OUTPUT_ROOT,
        &answers,
        &bakerignore,
        ".baker.j2",
    );
    let file_path = under_template("user.txt.baker.j2");
    let result = processor.process(&file_path, true, false, "{{ username }}").unwrap();
    match result {
        TemplateOperation::Write { target, content, target_exists } => {
            assert_eq!(target, under_output("user.txt"));
            assert_eq!(content, "copilot");
            assert!(!target_exists);
        }
        _ => panic!("Expected Write operation for (true, true) match branch"),
    }
}

#[test]
fn an_ignored_entry_is_neither_rendered_nor_placed() {
    let answers = answers(&[]);
    let bakerignore = parse_bakerignore_file(Some("*.pyc\n")).unwrap();
    let engine = MiniJinjaRenderer::new();
    let processor = TemplateProcessor::new(
        &engine,
        TEMPLATE_ROOT,
        OUTPUT_ROOT,
        &answers,
        &bakerignore,
        ".baker.j2",
    );
    for entry in ["hooks/pre_gen_project", ".git", ".git/config", "baker.yaml", "{{ broken.pyc"] {
        let path = under_template(entry);
        match processor.process(&path, true, true, "{{").unwrap() {
            TemplateOperation::Ignore { source } => assert_eq!(source, path),
            other => panic!("unexpected {:?}", other),
        }
    }
}

#[test]
fn target_exists_is_handed_through() {
    let answers = answers(&[]);
    let bakerignore = no_ignore_file();
    let engine = MiniJinjaRenderer::new();
    let processor = TemplateProcessor::new(
        &engine,
        TEMPLATE_ROOT,
        OUTPUT_ROOT,
        &answers,
        &bakerignore,
        ".baker.j2",
    );
    assert!(matches!(
        processor.process(&under_template("a.txt"), true, true, "").unwrap(),
        TemplateOperation::Copy { target_exists: true, .. }
    ));
    assert!(matches!(
        processor.process(&under_template("dir"), false, true, "").unwrap(),
        TemplateOperation::CreateDirectory { target_exists: true, .. }
    ));
    assert!(matches!(
        processor.process(&under_template("a.baker.j2"), true, true, "x").unwrap(),
        TemplateOperation::Write { target_exists: true, .. }
    ));
}

#[test]
fn a_directory_named_like_a_template_file_stays_a_directory_with_its_name() {
    let answers = answers(&[]);
    let bakerignore = no_ignore_file();
    let engine = MiniJinjaRenderer::new();
    let processor = TemplateProcessor::new(
        &engine,
        TEMPLATE_ROOT,
        OUTPUT_ROOT,
        &answers,
        &bakerignore,
        ".baker.j2",
    );
    match processor.process(&under_template("dir.baker.j2"), false, false, "").unwrap() {
        TemplateOperation::CreateDirectory { target, .. } => {
            assert_eq!(target, under_output("dir.baker.j2"))
        }
        other => panic!("unexpected {:?}", other),
    }
}

#[test]
fn a_path_that_does_not_render_is_a_render_error() {
    let answers = answers(&[]);
    let bakerignore = no_ignore_file();
    let engine = MiniJinjaRenderer::new();
    let processor = TemplateProcessor::new(
        &engine,
        TEMPLATE_ROOT,
        OUTPUT_ROOT,
        &answers,
        &bakerignore,
        ".baker.j2",
    );
    assert!(matches!(
        processor.process(&under_template("{{ unclosed"), true, false, ""),
        Err(Error::MinijinjaError(_))
    ));
    assert!(matches!(
        processor.process(&under_template("a.baker.j2"), true, false, "{% if %}"),
        Err(Error::MinijinjaError(_))
    ));
}

#[test]
fn plan_then_complete_is_process() {
    let answers = answers(&[("name", text("n"))]);
    let bakerignore = no_ignore_file();
    let engine = MiniJinjaRenderer::new();
    let processor = TemplateProcessor::new(
        &engine,
        TEMPLATE_ROOT,
        OUTPUT_ROOT,
        &answers,
        &bakerignore,
        ".baker.j2",
    );
    let plan = processor.plan(&under_template("{{name}}.md.baker.j2"), true).unwrap();
    match &plan {
        EntryPlan::Render { source, target } => {
            assert_eq!(source, &under_template("{{name}}.md.baker.j2"));
            assert_eq!(target, &under_output("n.md"));
        }
        other => panic!("unexpected {:?}", other),
    }
    match processor.complete(plan, true, "# {{name}}").unwrap() {
        TemplateOperation::Write { target, content, target_exists } => {
            assert_eq!(target, under_output("n.md"));
            assert_eq!(content, "# n");
            assert!(target_exists);
        }
        other => panic!("unexpected {:?}", other),
    }
    assert!(matches!(
        processor.plan(&under_template("sub"), false).unwrap(),
        EntryPlan::CreateDirectory { .. }
    ));
    assert!(matches!(
        processor.plan(&under_template("plain.txt"), true).unwrap(),
        EntryPlan::Copy { .. }
    ));
    assert!(matches!(
        processor.plan(&under_template(".git"), false).unwrap(),
        EntryPlan::Ignore { .. }
    ));
}

#[test]
fn render_template_entry_renders_each_segment() {
    let answers = answers(&[("a", text("x")), ("b", text("y"))]);
    let bakerignore = no_ignore_file();
    let engine = MiniJinjaRenderer::new();
    let processor = TemplateProcessor::new(
        &engine,
        TEMPLATE_ROOT,
        OUTPUT_ROOT,
        &answers,
        &bakerignore,
        ".baker.j2",
    );
    assert_eq!(
        processor.render_template_entry("/template_root/{{a}}/{{b}}-{{a}}.txt").unwrap(),
        "/template_root/x/y-x.txt"
    );
    assert_eq!(processor.render_template_entry("").unwrap(), "");
    match processor.render_template_entry("/template_root/{{missing}}/f") {
        Err(Error::ProcessError { source_path, e }) => {
            assert_eq!(source_path, "/template_root//f");
            assert_eq!(e, "The rendered path is not valid");
        }
        other => panic!("unexpected {:?}", other),
    }
}

#[test]
fn has_valid_rendered_path_parts_compares_segment_by_segment() {
    let answers = answers(&[]);
    let bakerignore = no_ignore_file();
    let engine = MiniJinjaRenderer::new();
    let processor = TemplateProcessor::new(
        &engine,
        TEMPLATE_ROOT,
        OUTPUT_ROOT,
        &answers,
        &bakerignore,
        ".baker.j2",
    );
    assert!(processor.has_valid_rendered_path_parts("root/{{a}}/f", "root/x/f"));
    assert!(!processor.has_valid_rendered_path_parts("root/{{a}}/f", "root//f"));
    assert!(!processor.has_valid_rendered_path_parts("{{a}}/f", "/f"));
    assert!(!processor.has_valid_rendered_path_parts("root/{{a}}", "root/"));
    assert!(processor.has_valid_rendered_path_parts("/root//f", "/root//f"));
    assert!(processor.has_valid_rendered_path_parts("a/b/c", "a"));
    assert!(processor.has_valid_rendered_path_parts("a", "a//"));
    assert!(processor.has_valid_rendered_path_parts("", ""));
    assert!(!processor.has_valid_rendered_path_parts("a", ""));
}

#[test]
fn is_template_file_looks_at_the_file_name() {
    let answers = answers(&[]);
    let bakerignore = no_ignore_file();
    let engine = MiniJinjaRenderer::new();
    let processor = TemplateProcessor::new(
        &engine,
        TEMPLATE_ROOT,
        OUTPUT_ROOT,
        &answers,
        &bakerignore,
        ".baker.j2",
    );
    assert!(processor.is_template_file("a/b.txt.baker.j2"));
    assert!(processor.is_template_file(".baker.j2"));
    assert!(!processor.is_template_file("a.baker.j2/b.txt"));
    assert!(!processor.is_template_file("a/b.j2"));
    assert!(!processor.is_template_file("a/b.baker.j2x"));
    assert!(!processor.is_template_file(""));
}

#[test]
fn strip_root_and_join_under() {
    assert_eq!(strip_root("/t/a/b", "/t"), Some("a/b".to_string()));
    assert_eq!(strip_root("/t/a/b", "/t/"), Some("a/b".to_string()));
    assert_eq!(strip_root("/t", "/t"), Some(String::new()));
    assert_eq!(strip_root("/t/", "/t"), Some(String::new()));
    assert_eq!(strip_root("/tt/a", "/t"), None);
    assert_eq!(strip_root("/a", "/t"), None);
    assert_eq!(strip_root("/", "/t"), None);
    assert_eq!(strip_root("a/b", ""), Some("a/b".to_string()));

    assert_eq!(join_under("/o", "a/b"), "/o/a/b");
    assert_eq!(join_under("/o/", "a/b"), "/o/a/b");
    assert_eq!(join_under("/o", ""), "/o");
    assert_eq!(join_under("", "a"), "a");
}

#[test]
fn parts_are_valid_table() {
    let s = |items: &[&str]| items.iter().map(|i| i.to_string()).collect::<Vec<String>>();
    assert!(parts_are_valid(&s(&["a", "b"]), &s(&["x", "y"])));
    assert!(!parts_are_valid(&s(&["a", "b"]), &s(&["x", ""])));
    assert!(parts_are_valid(&s(&["", "b"]), &s(&["", "y"])));
    assert!(parts_are_valid(&s(&[]), &s(&[])));
}
