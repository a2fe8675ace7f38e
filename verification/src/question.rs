//! The questions a template declares, and the default answer of each.
use vstd::prelude::*;
use vstd::string::*;

use crate::renderer::TemplateRenderer;
use crate::text::{text_eq, views};
use crate::value::{find_member, models, Json, JsonNumber, Number, Value};

verus! {

/// Type of question to be presented to the user.
#[derive(Debug)]
pub enum Type {
    /// String input question type.
    Str,
    /// Boolean (yes/no) question type.
    Bool,
}

/// How a secret answer is asked for.
#[derive(Debug)]
pub struct Secret {
    /// Whether the secret has to be entered a second time.
    pub confirm: bool,
    /// What to say when the two entries differ; empty for the standard text.
    pub mistmatch_err: String,
}

/// Represents a single question in the configuration.
#[derive(Debug)]
pub struct Question {
    /// Help text to display to the user; a template.
    pub help: String,
    /// Type of the question (string or boolean).
    pub value_type: Type,
    /// Optional default value for the question.
    pub default: Option<Value>,
    /// Available choices for string questions; none means free text.
    pub choices: Vec<String>,
    /// Whether several choices may be picked.
    pub multiselect: bool,
    /// Set where the answer is a secret.
    pub secret: Option<Secret>,
    /// A condition over the earlier answers; the question is asked only where
    /// it holds. Empty means always.
    pub ask_if: String,
}

/// What a question looks like once its templates are rendered.
#[derive(Debug)]
pub struct RenderedQuestion {
    pub ask_if: bool,
    pub default: Value,
    pub help: Option<String>,
}

/// The way a question is put to the user.
#[derive(Debug, Clone, Copy, PartialEq, Eq, Structural)]
pub enum QuestionType {
    MultipleChoice,
    SingleChoice,
    Text,
    Boolean,
}

/// The index of the first of `items` that equals `target`.
pub open spec fn position(items: Seq<Seq<char>>, target: Seq<char>) -> Option<int>
    decreases items.len(),
{
    if items.len() == 0 {
        None
    } else {
        match position(items.drop_last(), target) {
            Some(i) => Some(i),
            None => if items.last() == target {
                Some(items.len() - 1)
            } else {
                None
            },
        }
    }
}

pub proof fn lemma_position(items: Seq<Seq<char>>, target: Seq<char>)
    ensures
        match position(items, target) {
            Some(i) => 0 <= i < items.len() && items[i] == target && forall|j: int|
                0 <= j < i ==> items[j] != target,
            None => forall|j: int| 0 <= j < items.len() ==> items[j] != target,
        },
    decreases items.len(),
{
    if items.len() > 0 {
        let init = items.drop_last();
        lemma_position(init, target);
        assert forall|j: int| 0 <= j < init.len() implies init[j] == items[j] by {}
        match position(init, target) {
            Some(i) => {
                assert(init[i] == items[i]);
            },
            None => {
                assert forall|j: int| 0 <= j < init.len() implies items[j] != target by {
                    assert(init[j] != target);
                }
            },
        }
    }
}

/// The default of a single-choice question: the index of the default label
/// among the choices, 0 where there is no default or it is no choice.
pub open spec fn single_choice_default(default: Option<Json>, choices: Seq<Seq<char>>) -> Json {
    match default {
        Some(Json::String(label)) => match position(choices, label) {
            Some(i) => Json::Number(JsonNumber::Integer(i)),
            None => Json::Number(JsonNumber::Integer(0)),
        },
        _ => Json::Number(JsonNumber::Integer(0)),
    }
}

/// Whether the default of a multiple-choice question picks `label`: as a key of
/// an object, or as a string in an array.
pub open spec fn is_chosen(default: Option<Json>, label: Seq<char>) -> bool {
    match default {
        Some(Json::Object(members)) => find_member(members, label) is Some,
        Some(Json::Array(items)) => exists|i: int|
            0 <= i < items.len() && #[trigger] items[i] == Json::String(label),
        _ => false,
    }
}

/// The default of a multiple-choice question: for each choice, whether the
/// default picks it.
pub open spec fn multiple_choice_default(default: Option<Json>, choices: Seq<Seq<char>>) -> Json {
    Json::Array(Seq::new(choices.len(), |i: int| Json::Bool(is_chosen(default, choices[i]))))
}

/// The default of a text question: the default rendered as a template against
/// the answers so far; empty where there is none, it is no string, or it does
/// not render.
pub open spec fn text_default<E: TemplateRenderer>(
    engine: E,
    default: Option<Json>,
    context: Json,
) -> Json {
    match default {
        Some(Json::String(template)) => match engine.rendered(template, context) {
            Ok(text) => Json::String(text),
            Err(_) => Json::String(Seq::<char>::empty()),
        },
        _ => Json::String(Seq::<char>::empty()),
    }
}

/// The default of a yes/no question: the default where it is a boolean, else no.
pub open spec fn yes_no_default(default: Option<Json>) -> Json {
    match default {
        Some(Json::Bool(b)) => Json::Bool(b),
        _ => Json::Bool(false),
    }
}

impl Question {
    /// The default as a mathematical value.
    pub open spec fn default_model(&self) -> Option<Json> {
        match self.default {
            Some(value) => Some(value.model()),
            None => None,
        }
    }

    /// The way the question is put to the user.
    pub open spec fn kind(&self) -> QuestionType {
        match self.value_type {
            Type::Bool => QuestionType::Boolean,
            Type::Str => if self.choices@.len() == 0 {
                QuestionType::Text
            } else if self.multiselect {
                QuestionType::MultipleChoice
            } else {
                QuestionType::SingleChoice
            },
        }
    }

    /// The default answer of the question, given the answers so far.
    pub open spec fn resolved_default<E: TemplateRenderer>(&self, engine: E, context: Json) -> Json {
        match self.kind() {
            QuestionType::MultipleChoice => multiple_choice_default(
                self.default_model(),
                views(self.choices@),
            ),
            QuestionType::SingleChoice => single_choice_default(
                self.default_model(),
                views(self.choices@),
            ),
            QuestionType::Text => text_default(engine, self.default_model(), context),
            QuestionType::Boolean => yes_no_default(self.default_model()),
        }
    }

    /// Whether the question is put at all, given the answers so far: always
    /// where there is no condition or the condition cannot be evaluated.
    pub open spec fn asks<E: TemplateRenderer>(&self, engine: E, context: Json) -> bool {
        self.ask_if@.len() == 0 || match engine.truth(self.ask_if@, context) {
            Ok(b) => b,
            Err(_) => true,
        }
    }

    /// The help text rendered against the answers so far; where it does not
    /// render, the help text as it is.
    pub open spec fn rendered_help<E: TemplateRenderer>(&self, engine: E, context: Json) -> Seq<
        char,
    > {
        match engine.rendered(self.help@, context) {
            Ok(text) => text,
            Err(_) => self.help@,
        }
    }

    /// The default of the question, where it has one.
    pub fn get_default(&self) -> (r: &Option<Value>)
        ensures
            *r == self.default,
    {
        &self.default
    }

    /// The choices of the question.
    pub fn get_choices(&self) -> (r: &Vec<String>)
        ensures
            *r == self.choices,
    {
        &self.choices
    }

    /// The help text of the question, as a template.
    pub fn get_help(&self) -> (r: &String)
        ensures
            *r == self.help,
    {
        &self.help
    }

    /// The condition of the question, as an expression.
    pub fn get_ask_if(&self) -> (r: &String)
        ensures
            *r == self.ask_if,
    {
        &self.ask_if
    }

    /// The way the question is put to the user.
    pub fn question_type(&self) -> (r: QuestionType)
        ensures
            r == self.kind(),
    {
        match self.value_type {
            Type::Bool => QuestionType::Boolean,
            Type::Str => if self.choices.len() == 0 {
                QuestionType::Text
            } else if self.multiselect {
                QuestionType::MultipleChoice
            } else {
                QuestionType::SingleChoice
            },
        }
    }

    /// Retrieves the default value of a single-choice question.
    pub fn get_single_choice_default(&self) -> (r: Value)
        ensures
            r.model() == single_choice_default(self.default_model(), views(self.choices@)),
    {
        let mut index: usize = 0;
        if let Some(default_value) = &self.default {
            if let Some(label) = default_value.as_str() {
                let ghost choices = views(self.choices@);
                let mut i: usize = 0;
                let mut found = false;
                while i < self.choices.len() && !found
                    invariant
                        i <= self.choices.len(),
                        choices == views(self.choices@),
                        !found ==> forall|j: int| 0 <= j < i ==> choices[j] != label@,
                        !found ==> index == 0,
                        found ==> index < self.choices.len() && choices[index as int] == label@
                            && forall|j: int| 0 <= j < index ==> choices[j] != label@,
                    decreases self.choices.len() - i + if found { 0int } else { 1int },
                {
                    if text_eq(self.choices[i].as_str(), label) {
                        index = i;
                        found = true;
                    } else {
                        i = i + 1;
                    }
                }
                proof {
                    lemma_position(choices, label@);
                }
            }
        }
        Value::Number(Number::PosInt(index as u64))
    }

    /// Retrieves the default value of a multiple-choice question.
    pub fn get_multiple_choice_default(&self) -> (r: Value)
        ensures
            r.model() == multiple_choice_default(self.default_model(), views(self.choices@)),
    {
        let mut out: Vec<Value> = Vec::new();
        let mut i: usize = 0;
        while i < self.choices.len()
            invariant
                i <= self.choices.len(),
                out.len() == i,
                forall|k: int|
                    0 <= k < i ==> (#[trigger] out[k]).model() == Json::Bool(
                        is_chosen(self.default_model(), views(self.choices@)[k]),
                    ),
            decreases self.choices.len() - i,
        {
            let chosen = picks(&self.default, self.choices[i].as_str());
            out.push(Value::Bool(chosen));
            i = i + 1;
        }
        assert(models(out) =~= Seq::new(
            views(self.choices@).len(),
            |i: int| Json::Bool(is_chosen(self.default_model(), views(self.choices@)[i])),
        ));
        Value::Array(out)
    }

    /// Retrieves the default value of a text question.
    pub fn get_text_default<E: TemplateRenderer>(&self, engine: &E, current_context: &Value) -> (r:
        Value)
        ensures
            r.model() == text_default(*engine, self.default_model(), current_context.model()),
    {
        let text = if let Some(default_value) = &self.default {
            if let Some(template) = default_value.as_str() {
                match engine.render(template, current_context) {
                    Ok(text) => text,
                    Err(_) => String::new(),
                }
            } else {
                String::new()
            }
        } else {
            String::new()
        };
        Value::String(text)
    }

    /// Retrieves the default value of a yes/no question.
    pub fn get_yes_no_default(&self) -> (r: Value)
        ensures
            r.model() == yes_no_default(self.default_model()),
    {
        let flag = if let Some(default_value) = &self.default {
            match default_value.as_bool() {
                Some(b) => b,
                None => false,
            }
        } else {
            false
        };
        Value::Bool(flag)
    }

    /// The default answer of the question, by its type.
    pub fn render_default_value<E: TemplateRenderer>(&self, engine: &E, answers: &Value) -> (r:
        Value)
        ensures
            r.model() == self.resolved_default(*engine, answers.model()),
    {
        match self.question_type() {
            QuestionType::MultipleChoice => self.get_multiple_choice_default(),
            QuestionType::SingleChoice => self.get_single_choice_default(),
            QuestionType::Text => self.get_text_default(engine, answers),
            QuestionType::Boolean => self.get_yes_no_default(),
        }
    }

    /// Renders the question against the answers so far: its default, its help
    /// text, and whether it is to be asked. None of the three can fail.
    pub fn render<E: TemplateRenderer>(&self, engine: &E, answers: &Value) -> (r: RenderedQuestion)
        ensures
            r.default.model() == self.resolved_default(*engine, answers.model()),
            r.ask_if == self.asks(*engine, answers.model()),
            r.help is Some,
            r.help->Some_0@ == self.rendered_help(*engine, answers.model()),
    {
        let default = self.render_default_value(engine, answers);
        let help = match engine.render(self.help.as_str(), answers) {
            Ok(text) => text,
            Err(_) => self.help.clone(),
        };
        let ask = if self.ask_if.as_str().unicode_len() == 0 {
            true
        } else {
            match engine.execute_expression(self.ask_if.as_str(), answers) {
                Ok(b) => b,
                Err(_) => true,
            }
        };
        RenderedQuestion { default, ask_if: ask, help: Some(help) }
    }
}

/// Whether `default` picks `label`, as [`is_chosen`] defines it.
#[verifier::loop_isolation(false)]
pub fn picks(default: &Option<Value>, label: &str) -> (r: bool)
    ensures
        r == is_chosen(
            match default {
                Some(value) => Some(value.model()),
                None => None,
            },
            label@,
        ),
{
    match default {
        None => false,
        Some(value) => match value {
            Value::Object(_) => value.get(label).is_some(),
            Value::Array(items) => {
                let ghost all = models(*items);
                let mut i: usize = 0;
                while i < items.len()
                    invariant
                        i <= items.len(),
                        all == models(*items),
                        forall|j: int| 0 <= j < i ==> #[trigger] all[j] != Json::String(label@),
                    decreases items.len() - i,
                {
                    if let Some(text) = items[i].as_str() {
                        if text_eq(text, label) {
                            assert(all[i as int] == Json::String(label@));
                            return true;
                        }
                    }
                    i = i + 1;
                }
                false
            },
            _ => false,
        },
    }
}

} // verus!
