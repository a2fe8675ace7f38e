use baker::error::Error;
use baker::renderer::{MiniJinjaRenderer, TemplateRenderer};
use baker::value::{Number, Value};

fn text(s: &str) -> Value {
    Value::String(s.to_string())
}

#[test]
fn test_minijinja_engine() {
    let engine = MiniJinjaRenderer::new();
    let context = Value::Object(vec![
        ("name".to_string(), text("test")),
        ("value".to_string(), Value::Number(Number::PosInt(42))),
    ]);

    let result = engine.render("Hello {{ name }}!", &context).unwrap();
    assert_eq!(result, "Hello test!");

    let result = engine.render("Value: {{ value }}", &context).unwrap();
    assert_eq!(result, "Value: 42");
}

#[test]
fn a_template_without_expressions_comes_back_unchanged() {
    let engine = MiniJinjaRenderer::new();
    let context = Value::Object(vec![("name".to_string(), text("test"))]);
    for template in ["", "plain", "with } and %} and #}", "two\nlines", "  spaced  ", "ünï 🦀"] {
        assert_eq!(engine.render(template, &context).unwrap(), template);
        let again = engine.render(template, &context).unwrap();
        assert_eq!(engine.render(&again, &context).unwrap(), template);
    }
}

#[test]
fn a_brace_that_starts_nothing_passes_through() {
    let engine = MiniJinjaRenderer::new();
    let context = Value::Object(vec![("b".to_string(), text("x"))]);
    for template in ["a{b", "{", "{ {", "a{", "{}", "{ % x % }", "{\u{e9}{ }", "}}{", "{'{'}"] {
        assert_eq!(engine.render(template, &context).unwrap(), template, "{:?}", template);
    }
}

#[test]
fn a_plain_template_renders_against_every_context_that_is_json() {
    let engine = MiniJinjaRenderer::new();
    let contexts = vec![
        Value::Object(vec![]),
        Value::Null,
        Value::Bool(true),
        Value::Number(Number::PosInt(42)),
        Value::Number(Number::Literal("1.5".to_string())),
        text("just text"),
        Value::Array(vec![text("a")]),
    ];
    for context in &contexts {
        assert_eq!(engine.render("Hello, World", context).unwrap(), "Hello, World");
        assert_eq!(engine.render("", context).unwrap(), "");
    }
    assert_eq!(engine.render("Hello, World", &Value::Object(vec![])).unwrap(), "Hello, World");
}

#[test]
fn the_engine_drops_one_final_line_break() {
    let engine = MiniJinjaRenderer::new();
    let context = Value::Object(vec![]);
    assert_eq!(engine.render("line\n", &context).unwrap(), "line");
    assert_eq!(engine.render("line\r\n", &context).unwrap(), "line");
    assert_eq!(engine.render("line\n\n", &context).unwrap(), "line\n");
}

#[test]
fn the_context_reaches_the_engine_with_all_kinds_of_values() {
    let engine = MiniJinjaRenderer::new();
    let context = Value::Object(vec![
        ("s".to_string(), text("q\"uote")),
        ("b".to_string(), Value::Bool(true)),
        ("n".to_string(), Value::Number(Number::NegInt(-5))),
        ("f".to_string(), Value::Number(Number::Literal("1.5".to_string()))),
        ("none".to_string(), Value::Null),
        ("list".to_string(), Value::Array(vec![text("a"), text("b")])),
        ("map".to_string(), Value::Object(vec![("k".to_string(), text("v"))])),
    ]);
    assert_eq!(engine.render("{{ s }}", &context).unwrap(), "q\"uote");
    assert_eq!(engine.render("{% if b %}yes{% endif %}", &context).unwrap(), "yes");
    assert_eq!(engine.render("{{ n + 1 }}", &context).unwrap(), "-4");
    assert_eq!(engine.render("{{ f * 2 }}", &context).unwrap(), "3.0");
    assert_eq!(engine.render("{% if none is none %}y{% endif %}", &context).unwrap(), "y");
    assert_eq!(engine.render("{{ list | join('-') }}", &context).unwrap(), "a-b");
    assert_eq!(engine.render("{{ map.k }}", &context).unwrap(), "v");
    assert_eq!(engine.render("[{{ missing }}]", &context).unwrap(), "[]");
}

#[test]
fn a_malformed_template_is_a_render_error() {
    let engine = MiniJinjaRenderer::new();
    let context = Value::Object(vec![]);
    match engine.render("{{ unclosed", &context) {
        Err(Error::MinijinjaError(message)) => assert!(!message.is_empty()),
        other => panic!("unexpected {:?}", other),
    }
}

#[test]
fn a_context_that_is_no_json_is_a_render_error() {
    let engine = MiniJinjaRenderer::new();
    let context = Value::Number(Number::Literal("not a number".to_string()));
    assert!(matches!(engine.render("x", &context), Err(Error::MinijinjaError(_))));
    assert!(matches!(engine.execute_expression("true", &context), Err(Error::MinijinjaError(_))));
}

#[test]
fn execute_expression_tells_truth() {
    let engine = MiniJinjaRenderer::new();
    let context = Value::Object(vec![
        ("on".to_string(), Value::Bool(true)),
        ("name".to_string(), text("x")),
        ("empty".to_string(), text("")),
        ("list".to_string(), Value::Array(vec![])),
    ]);
    assert!(engine.execute_expression("on", &context).unwrap());
    assert!(!engine.execute_expression("not on", &context).unwrap());
    assert!(engine.execute_expression("name == 'x'", &context).unwrap());
    assert!(!engine.execute_expression("empty", &context).unwrap());
    assert!(!engine.execute_expression("list", &context).unwrap());
    assert!(!engine.execute_expression("missing", &context).unwrap());
    assert!(matches!(engine.execute_expression("1 +", &context), Err(Error::MinijinjaError(_))));
}
