use baker::error::Error;
use baker::parser::{get_answers, get_answers_from, lookup, resolve, Resolution};
use baker::prompt::{
    ConfirmationConfig, ConfirmationPrompter, MultipleChoiceConfig, MultipleChoicePrompter,
    SingleChoiceConfig, SingleChoicePrompter, TextPromptConfig, TextPrompter,
};
use baker::question::{Question, Type};
use baker::renderer::MiniJinjaRenderer;
use baker::value::{Number, Value};
use indexmap::IndexMap;
use std::cell::RefCell;

/// Answers every prompt with its default and records what it was shown.
struct TakeDefaults {
    seen: RefCell<Vec<String>>,
}

impl TakeDefaults {
    fn new() -> TakeDefaults {
        TakeDefaults { seen: RefCell::new(Vec::new()) }
    }
}

impl TextPrompter for TakeDefaults {
    fn prompt_text(&self, config: &TextPromptConfig) -> Result<String, Error> {
        self.seen.borrow_mut().push(config.prompt.clone());
        Ok(config.default.clone().unwrap_or_default())
    }
}

impl SingleChoicePrompter for TakeDefaults {
    fn prompt_single_choice(&self, config: &SingleChoiceConfig) -> Result<usize, Error> {
        self.seen.borrow_mut().push(config.prompt.clone());
        Ok(config.default_index.unwrap_or(0))
    }
}

impl MultipleChoicePrompter for TakeDefaults {
    fn prompt_multiple_choice(&self, config: &MultipleChoiceConfig) -> Result<Vec<usize>, Error> {
        self.seen.borrow_mut().push(config.prompt.clone());
        Ok(config.defaults.iter().enumerate().filter(|(_, on)| **on).map(|(i, _)| i).collect())
    }
}

impl ConfirmationPrompter for TakeDefaults {
    fn prompt_confirmation(&self, config: &ConfirmationConfig) -> Result<bool, Error> {
        self.seen.borrow_mut().push(config.prompt.clone());
        Ok(config.default)
    }
}

/// Fails whenever it is asked anything.
struct Nobody;

impl TextPrompter for Nobody {
    fn prompt_text(&self, _config: &TextPromptConfig) -> Result<String, Error> {
        Err(Error::PromptError("nobody there".to_string()))
    }
}

impl SingleChoicePrompter for Nobody {
    fn prompt_single_choice(&self, _config: &SingleChoiceConfig) -> Result<usize, Error> {
        Err(Error::PromptError("nobody there".to_string()))
    }
}

impl MultipleChoicePrompter for Nobody {
    fn prompt_multiple_choice(&self, _config: &MultipleChoiceConfig) -> Result<Vec<usize>, Error> {
        Err(Error::PromptError("nobody there".to_string()))
    }
}

impl ConfirmationPrompter for Nobody {
    fn prompt_confirmation(&self, _config: &ConfirmationConfig) -> Result<bool, Error> {
        Err(Error::PromptError("nobody there".to_string()))
    }
}

fn text(s: &str) -> Value {
    Value::String(s.to_string())
}

fn object(pairs: Vec<(&str, Value)>) -> Value {
    Value::Object(pairs.into_iter().map(|(k, v)| (k.to_string(), v)).collect())
}

fn text_question(help: &str, default: Option<Value>, ask_if: &str) -> Question {
    Question {
        help: help.to_string(),
        value_type: Type::Str,
        default,
        choices: vec![],
        multiselect: false,
        secret: None,
        ask_if: ask_if.to_string(),
    }
}

fn choice_question(choices: &[&str], multiselect: bool, default: Option<Value>) -> Question {
    Question {
        help: "Pick".to_string(),
        value_type: Type::Str,
        default,
        choices: choices.iter().map(|c| c.to_string()).collect(),
        multiselect,
        secret: None,
        ask_if: String::new(),
    }
}

fn bool_question(default: Option<Value>, ask_if: &str) -> Question {
    Question {
        help: "Sure?".to_string(),
        value_type: Type::Bool,
        default,
        choices: vec![],
        multiselect: false,
        secret: None,
        ask_if: ask_if.to_string(),
    }
}

fn members(value: &Value) -> Vec<(String, String)> {
    match value {
        Value::Object(fields) => {
            fields.iter().map(|(k, v)| (k.clone(), v.to_json())).collect()
        }
        other => panic!("not an object: {:?}", other),
    }
}

fn pairs(items: &[(&str, &str)]) -> Vec<(String, String)> {
    items.iter().map(|(k, v)| (k.to_string(), v.to_string())).collect()
}

#[test]
fn no_questions_give_an_empty_context() {
    let questions: IndexMap<String, Question> = IndexMap::new();
    let answers =
        get_answers(&MiniJinjaRenderer::new(), &Nobody, &questions, &vec![]).unwrap();
    assert_eq!(answers.to_json(), "{}");
}

#[test]
fn answers_come_in_the_order_of_the_questions_one_per_key() {
    let mut questions = IndexMap::new();
    questions.insert("zeta".to_string(), text_question("Z", Some(text("z")), ""));
    questions.insert("alpha".to_string(), bool_question(Some(Value::Bool(true)), ""));
    questions.insert("mid".to_string(), choice_question(&["a", "b"], false, Some(text("b"))));
    questions.insert("many".to_string(), choice_question(&["a", "b", "c"], true, None));
    let prompter = TakeDefaults::new();
    let answers =
        get_answers(&MiniJinjaRenderer::new(), &prompter, &questions, &vec![]).unwrap();
    assert_eq!(
        members(&answers),
        pairs(&[("zeta", "\"z\""), ("alpha", "true"), ("mid", "\"b\""), ("many", "[]")])
    );
    assert_eq!(
        *prompter.seen.borrow(),
        vec!["Z".to_string(), "Sure?".to_string(), "Pick".to_string(), "Pick".to_string()]
    );
}

#[test]
fn a_default_sees_the_answers_before_it() {
    let mut questions = IndexMap::new();
    questions.insert("name".to_string(), text_question("Name", Some(text("demo")), ""));
    questions.insert(
        "slug".to_string(),
        text_question("Slug for {{name}}", Some(text("{{name}}-app")), ""),
    );
    let prompter = TakeDefaults::new();
    let answers =
        get_answers(&MiniJinjaRenderer::new(), &prompter, &questions, &vec![]).unwrap();
    assert_eq!(members(&answers), pairs(&[("name", "\"demo\""), ("slug", "\"demo-app\"")]));
    assert_eq!(
        *prompter.seen.borrow(),
        vec!["Name".to_string(), "Slug for demo".to_string()]
    );
}

#[test]
fn a_default_that_names_a_later_key_resolves_as_if_the_key_were_undefined() {
    let mut questions = IndexMap::new();
    questions.insert(
        "first".to_string(),
        text_question("First {{second}}!", Some(text("[{{second}}]")), ""),
    );
    questions.insert("second".to_string(), text_question("Second", Some(text("two")), ""));
    let prompter = TakeDefaults::new();
    let answers =
        get_answers(&MiniJinjaRenderer::new(), &prompter, &questions, &vec![]).unwrap();
    assert_eq!(members(&answers), pairs(&[("first", "\"[]\""), ("second", "\"two\"")]));
    assert_eq!(*prompter.seen.borrow(), vec!["First !".to_string(), "Second".to_string()]);
}

#[test]
fn a_later_key_stays_invisible_even_where_a_source_holds_it() {
    let mut questions = IndexMap::new();
    questions.insert("first".to_string(), text_question("F", Some(text("[{{second}}]")), ""));
    questions.insert("second".to_string(), text_question("S", None, ""));
    let sources = vec![object(vec![("second", text("two"))])];
    let prompter = TakeDefaults::new();
    let answers =
        get_answers(&MiniJinjaRenderer::new(), &prompter, &questions, &sources).unwrap();
    assert_eq!(members(&answers), pairs(&[("first", "\"[]\""), ("second", "\"two\"")]));
}

#[test]
fn a_malformed_default_or_help_or_condition_degrades() {
    let mut questions = IndexMap::new();
    questions.insert(
        "broken".to_string(),
        text_question("Help {{ unclosed", Some(text("{% if %}")), "1 +"),
    );
    let prompter = TakeDefaults::new();
    let answers =
        get_answers(&MiniJinjaRenderer::new(), &prompter, &questions, &vec![]).unwrap();
    assert_eq!(members(&answers), pairs(&[("broken", "\"\"")]));
    assert_eq!(*prompter.seen.borrow(), vec!["Help {{ unclosed".to_string()]);
}

#[test]
fn a_supplied_answer_wins_and_nobody_is_asked() {
    let mut questions = IndexMap::new();
    questions.insert("name".to_string(), text_question("Name", Some(text("demo")), ""));
    questions.insert("flag".to_string(), bool_question(None, ""));
    questions.insert("pick".to_string(), choice_question(&["a", "b"], false, None));
    let hook = object(vec![
        ("name", text("from hook")),
        ("flag", Value::Number(Number::PosInt(3))),
        ("pick", Value::Null),
    ]);
    let answers =
        get_answers(&MiniJinjaRenderer::new(), &Nobody, &questions, &vec![hook]).unwrap();
    assert_eq!(
        members(&answers),
        pairs(&[("name", "\"from hook\""), ("flag", "3"), ("pick", "null")])
    );
}

#[test]
fn the_higher_ranked_source_wins_and_missing_keys_fall_through() {
    let mut questions = IndexMap::new();
    questions.insert("a".to_string(), text_question("A", None, ""));
    questions.insert("b".to_string(), text_question("B", None, ""));
    questions.insert("c".to_string(), text_question("C", Some(text("dc")), ""));
    let explicit = object(vec![("a", text("override"))]);
    let hook = object(vec![("a", text("hook")), ("b", text("hook"))]);
    let sources = get_answers_from(Some(explicit), Some(hook));
    let prompter = TakeDefaults::new();
    let answers =
        get_answers(&MiniJinjaRenderer::new(), &prompter, &questions, &sources).unwrap();
    assert_eq!(
        members(&answers),
        pairs(&[("a", "\"override\""), ("b", "\"hook\""), ("c", "\"dc\"")])
    );
    assert_eq!(*prompter.seen.borrow(), vec!["C".to_string()]);
}

#[test]
fn a_question_whose_condition_fails_takes_its_default_whatever_the_sources_say() {
    let mut questions = IndexMap::new();
    questions.insert("use_db".to_string(), bool_question(Some(Value::Bool(false)), ""));
    questions.insert("db".to_string(), text_question("DB", Some(text("sqlite")), "use_db"));
    questions.insert(
        "driver".to_string(),
        choice_question(&["a", "b"], false, Some(text("b"))),
    );
    let mut driver = questions.swap_remove("driver").unwrap();
    driver.ask_if = "use_db".to_string();
    questions.insert("driver".to_string(), driver);
    let sources = vec![object(vec![("db", text("postgres")), ("driver", text("a"))])];
    let prompter = TakeDefaults::new();
    let answers =
        get_answers(&MiniJinjaRenderer::new(), &prompter, &questions, &sources).unwrap();
    assert_eq!(
        members(&answers),
        pairs(&[("use_db", "false"), ("db", "\"sqlite\""), ("driver", "1")])
    );
    assert_eq!(*prompter.seen.borrow(), vec!["Sure?".to_string()]);
}

#[test]
fn a_condition_that_holds_lets_the_question_through() {
    let mut questions = IndexMap::new();
    questions.insert("use_db".to_string(), bool_question(Some(Value::Bool(true)), ""));
    questions.insert("db".to_string(), text_question("DB", Some(text("sqlite")), "use_db"));
    let prompter = TakeDefaults::new();
    let answers =
        get_answers(&MiniJinjaRenderer::new(), &prompter, &questions, &vec![]).unwrap();
    assert_eq!(members(&answers), pairs(&[("use_db", "true"), ("db", "\"sqlite\"")]));
    assert_eq!(*prompter.seen.borrow(), vec!["Sure?".to_string(), "DB".to_string()]);
}

#[test]
fn a_failing_prompt_fails_the_resolution() {
    let mut questions = IndexMap::new();
    questions.insert("a".to_string(), text_question("A", None, ""));
    assert!(matches!(
        get_answers(&MiniJinjaRenderer::new(), &Nobody, &questions, &vec![]),
        Err(Error::PromptError(_))
    ));
}

#[test]
fn sources_that_are_no_objects_supply_nothing() {
    let sources = vec![Value::Null, text("x"), Value::Array(vec![]), object(vec![("k", text("v"))])];
    assert_eq!(lookup(&sources, "k").map(|v| v.to_json()), Some("\"v\"".to_string()));
    assert!(lookup(&sources, "other").is_none());
    assert!(lookup(&vec![], "k").is_none());
}

#[test]
fn get_answers_from_ranks_the_override_first() {
    let ranked = get_answers_from(Some(text("override")), Some(text("hook")));
    assert_eq!(
        ranked.iter().map(|v| v.to_json()).collect::<Vec<_>>(),
        vec!["\"override\"".to_string(), "\"hook\"".to_string()]
    );
    assert_eq!(get_answers_from(None, Some(text("hook"))).len(), 1);
    assert_eq!(get_answers_from(Some(text("override")), None).len(), 1);
    assert!(get_answers_from(None, None).is_empty());
}

#[test]
fn resolve_says_whether_to_ask() {
    let engine = MiniJinjaRenderer::new();
    let context = object(vec![("name", text("demo"))]);
    let question = text_question("Slug of {{name}}", Some(text("{{name}}-x")), "");

    match resolve(&engine, "slug", &question, &context, &vec![]) {
        Resolution::Prompt { default, help } => {
            assert_eq!(default.to_json(), "\"demo-x\"");
            assert_eq!(help, "Slug of demo");
        }
        other => panic!("unexpected {:?}", other),
    }
    let sources = vec![object(vec![("slug", text("given"))])];
    match resolve(&engine, "slug", &question, &context, &sources) {
        Resolution::Settled(value) => assert_eq!(value.to_json(), "\"given\""),
        other => panic!("unexpected {:?}", other),
    }
    let unasked = text_question("Slug", Some(text("{{name}}-x")), "false");
    match resolve(&engine, "slug", &unasked, &context, &sources) {
        Resolution::Settled(value) => assert_eq!(value.to_json(), "\"demo-x\""),
        other => panic!("unexpected {:?}", other),
    }
}
