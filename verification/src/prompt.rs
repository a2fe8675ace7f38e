//! Putting a question to the user: what is shown, and what is made of the reply.
use vstd::prelude::*;
use vstd::string::*;

use crate::error::{Error, ErrorView};
use crate::json::json_text;
use crate::question::{Question, QuestionType, Secret};
use crate::text::{concat, text_eq, views};
use crate::value::{models, Json, JsonNumber, Number, Value};

verus! {

/// What a text prompt shows.
#[derive(Debug)]
pub struct TextPromptConfig {
    pub prompt: String,
    pub default: Option<String>,
    pub secret: Option<Secret>,
}

/// What a single-choice prompt shows.
#[derive(Debug)]
pub struct SingleChoiceConfig {
    pub prompt: String,
    pub choices: Vec<String>,
    pub default_index: Option<usize>,
}

/// What a multiple-choice prompt shows.
#[derive(Debug)]
pub struct MultipleChoiceConfig {
    pub prompt: String,
    pub choices: Vec<String>,
    pub defaults: Vec<bool>,
}

/// What a yes/no prompt shows.
#[derive(Debug)]
pub struct ConfirmationConfig {
    pub prompt: String,
    pub default: bool,
}

/// How a secret is asked for, with its text as a sequence of characters.
pub struct SecretView {
    pub confirm: bool,
    pub mistmatch_err: Seq<char>,
}

/// A [`TextPromptConfig`] with its texts as sequences of characters.
pub struct TextPromptView {
    pub prompt: Seq<char>,
    pub default: Option<Seq<char>>,
    pub secret: Option<SecretView>,
}

/// A [`SingleChoiceConfig`] with its texts as sequences of characters.
pub struct SingleChoiceView {
    pub prompt: Seq<char>,
    pub choices: Seq<Seq<char>>,
    pub default_index: Option<usize>,
}

/// A [`MultipleChoiceConfig`] with its texts as sequences of characters.
pub struct MultipleChoiceView {
    pub prompt: Seq<char>,
    pub choices: Seq<Seq<char>>,
    pub defaults: Seq<bool>,
}

/// A [`ConfirmationConfig`] with its text as a sequence of characters.
pub struct ConfirmationView {
    pub prompt: Seq<char>,
    pub default: bool,
}

/// The secret settings with their text as a sequence of characters.
pub open spec fn secret_model(secret: Option<Secret>) -> Option<SecretView> {
    match secret {
        Some(s) => Some(SecretView { confirm: s.confirm, mistmatch_err: s.mistmatch_err@ }),
        None => None,
    }
}

impl View for TextPromptConfig {
    type V = TextPromptView;

    open spec fn view(&self) -> TextPromptView {
        TextPromptView {
            prompt: self.prompt@,
            default: match self.default {
                Some(text) => Some(text@),
                None => None,
            },
            secret: secret_model(self.secret),
        }
    }
}

impl View for SingleChoiceConfig {
    type V = SingleChoiceView;

    open spec fn view(&self) -> SingleChoiceView {
        SingleChoiceView {
            prompt: self.prompt@,
            choices: views(self.choices@),
            default_index: self.default_index,
        }
    }
}

impl View for MultipleChoiceConfig {
    type V = MultipleChoiceView;

    open spec fn view(&self) -> MultipleChoiceView {
        MultipleChoiceView {
            prompt: self.prompt@,
            choices: views(self.choices@),
            defaults: self.defaults@,
        }
    }
}

impl View for ConfirmationConfig {
    type V = ConfirmationView;

    open spec fn view(&self) -> ConfirmationView {
        ConfirmationView { prompt: self.prompt@, default: self.default }
    }
}

/// What a text prompt handed back, with its texts as sequences of characters.
pub open spec fn text_reply(r: Result<String, Error>) -> Result<Seq<char>, ErrorView> {
    match r {
        Ok(text) => Ok(text@),
        Err(e) => Err(e@),
    }
}

/// What a single-choice prompt handed back.
pub open spec fn index_reply(r: Result<usize, Error>) -> Result<usize, ErrorView> {
    match r {
        Ok(index) => Ok(index),
        Err(e) => Err(e@),
    }
}

/// What a multiple-choice prompt handed back.
pub open spec fn indices_reply(r: Result<Vec<usize>, Error>) -> Result<Seq<usize>, ErrorView> {
    match r {
        Ok(indices) => Ok(indices@),
        Err(e) => Err(e@),
    }
}

/// What a yes/no prompt handed back.
pub open spec fn flag_reply(r: Result<bool, Error>) -> Result<bool, ErrorView> {
    match r {
        Ok(flag) => Ok(flag),
        Err(e) => Err(e@),
    }
}

/// Asks for a line of text. What comes back is the user's: the same prompt
/// may be answered differently each time, and it may fail.
/// [`TextPrompter::entered`] says what the prompter can hand back for a
/// prompt, an entry or a failure; a prompter that says nothing of it can hand
/// back anything.
pub trait TextPrompter {
    /// Whether `reply` is what this prompter hands back for a prompt that
    /// shows `config`.
    open spec fn entered(&self, config: TextPromptView, reply: Result<Seq<char>, ErrorView>) -> bool {
        true
    }

    fn prompt_text(&self, config: &TextPromptConfig) -> (r: Result<String, Error>)
        ensures
            self.entered(config@, text_reply(r)),
    ;
}

/// Asks for one of several choices; the reply is the index of the choice.
pub trait SingleChoicePrompter {
    /// Whether `reply` is what this prompter hands back for a prompt that
    /// shows `config`.
    open spec fn selected(&self, config: SingleChoiceView, reply: Result<usize, ErrorView>) -> bool {
        true
    }

    fn prompt_single_choice(&self, config: &SingleChoiceConfig) -> (r: Result<usize, Error>)
        ensures
            self.selected(config@, index_reply(r)),
    ;
}

/// Asks for any number of several choices; the reply holds their indices.
pub trait MultipleChoicePrompter {
    /// Whether `reply` is what this prompter hands back for a prompt that
    /// shows `config`.
    open spec fn marked(&self, config: MultipleChoiceView, reply: Result<Seq<usize>, ErrorView>) -> bool {
        true
    }

    fn prompt_multiple_choice(&self, config: &MultipleChoiceConfig) -> (r: Result<
        Vec<usize>,
        Error,
    >)
        ensures
            self.marked(config@, indices_reply(r)),
    ;
}

/// Asks for a yes or a no.
pub trait ConfirmationPrompter {
    /// Whether `reply` is what this prompter hands back for a prompt that
    /// shows `config`.
    open spec fn confirmed(&self, config: ConfirmationView, reply: Result<bool, ErrorView>) -> bool {
        true
    }

    fn prompt_confirmation(&self, config: &ConfirmationConfig) -> (r: Result<bool, Error>)
        ensures
            self.confirmed(config@, flag_reply(r)),
    ;
}

/// The text that a text prompt offers as default: a string as it is, nothing
/// for null, the JSON text of anything else.
pub open spec fn default_text(default: Json) -> Seq<char> {
    match default {
        Json::String(text) => text,
        Json::Null => Seq::<char>::empty(),
        other => json_text(other),
    }
}

/// The index that a single-choice prompt starts on: the default where it is a
/// non-negative integer that an index can hold.
pub open spec fn default_index(default: Json) -> Option<int> {
    match default {
        Json::Number(JsonNumber::Integer(n)) => if 0 <= n <= usize::MAX {
            Some(n)
        } else {
            None
        },
        _ => None,
    }
}

/// The marks that a multiple-choice prompt starts with: one for each item of
/// an array default, set where the item is `true`.
pub open spec fn default_marks(default: Json) -> Seq<bool> {
    match default {
        Json::Array(items) => Seq::new(items.len(), |i: int| items[i] == Json::Bool(true)),
        _ => Seq::<bool>::empty(),
    }
}

/// The answer that a yes/no prompt starts on.
pub open spec fn default_flag(default: Json) -> bool {
    default == Json::Bool(true)
}

/// What is said when the two entries of a secret differ.
pub open spec fn mismatch_text(secret: Secret) -> Seq<char> {
    if secret.mistmatch_err@.len() == 0 {
        "Mistmatch"@
    } else {
        secret.mistmatch_err@
    }
}

/// What the prompt for a text question shows.
pub open spec fn text_view(prompt: Seq<char>, default: Json, secret: Option<Secret>) -> TextPromptView {
    TextPromptView {
        prompt,
        default: Some(default_text(default)),
        secret: secret_model(secret),
    }
}

/// What the prompt for a single-choice question shows.
pub open spec fn single_choice_view(prompt: Seq<char>, choices: Seq<Seq<char>>, default: Json) -> SingleChoiceView {
    SingleChoiceView {
        prompt,
        choices,
        default_index: match default_index(default) {
            Some(n) => Some(n as usize),
            None => None,
        },
    }
}

/// What the prompt for a multiple-choice question shows.
pub open spec fn multiple_choice_view(
    prompt: Seq<char>,
    choices: Seq<Seq<char>>,
    default: Json,
) -> MultipleChoiceView {
    MultipleChoiceView { prompt, choices, defaults: default_marks(default) }
}

/// What the prompt for a yes/no question shows.
pub open spec fn confirmation_view(prompt: Seq<char>, default: Json) -> ConfirmationView {
    ConfirmationView { prompt, default: default_flag(default) }
}

/// The prompt for a text question.
pub fn text_config(prompt: &str, default_value: &Value, secret: Option<Secret>) -> (r:
    TextPromptConfig)
    ensures
        r.prompt@ == prompt@,
        r.default is Some,
        r.default->Some_0@ == default_text(default_value.model()),
        r.secret == secret,
        r@ == text_view(prompt@, default_value.model(), secret),
{
    let text = match default_value {
        Value::String(s) => s.clone(),
        Value::Null => String::new(),
        _ => default_value.to_json(),
    };
    TextPromptConfig { prompt: prompt.to_owned(), default: Some(text), secret }
}

/// A copy of the given strings.
pub fn copy_strings(items: &Vec<String>) -> (r: Vec<String>)
    ensures
        views(r@) == views(items@),
{
    let mut out: Vec<String> = Vec::new();
    let mut i: usize = 0;
    while i < items.len()
        invariant
            i <= items.len(),
            out.len() == i,
            forall|k: int| 0 <= k < i ==> out[k]@ == items[k]@,
        decreases items.len() - i,
    {
        out.push(items[i].clone());
        i = i + 1;
    }
    assert(views(out@) =~= views(items@));
    out
}

/// The prompt for a single-choice question.
pub fn single_choice_config(prompt: &str, choices: &Vec<String>, default_value: &Value) -> (r:
    SingleChoiceConfig)
    ensures
        r.prompt@ == prompt@,
        views(r.choices@) == views(choices@),
        match default_index(default_value.model()) {
            Some(n) => r.default_index == Some(n as usize),
            None => r.default_index is None,
        },
        r@ == single_choice_view(prompt@, views(choices@), default_value.model()),
{
    let index = match default_value {
        Value::Number(Number::PosInt(n)) => if *n <= usize::MAX as u64 {
            Some(*n as usize)
        } else {
            None
        },
        Value::Number(Number::NegInt(n)) => if *n >= 0 && *n as u64 <= usize::MAX as u64 {
            Some(*n as usize)
        } else {
            None
        },
        _ => None,
    };
    SingleChoiceConfig { prompt: prompt.to_owned(), choices: copy_strings(choices), default_index: index }
}

/// The prompt for a multiple-choice question.
#[verifier::loop_isolation(false)]
pub fn multiple_choice_config(prompt: &str, choices: &Vec<String>, default_value: &Value) -> (r:
    MultipleChoiceConfig)
    ensures
        r.prompt@ == prompt@,
        views(r.choices@) == views(choices@),
        r.defaults@ == default_marks(default_value.model()),
        r@ == multiple_choice_view(prompt@, views(choices@), default_value.model()),
{
    let mut marks: Vec<bool> = Vec::new();
    if let Value::Array(items) = default_value {
        let mut i: usize = 0;
        while i < items.len()
            invariant
                i <= items.len(),
                marks.len() == i,
                forall|k: int| 0 <= k < i ==> marks[k] == (models(*items)[k] == Json::Bool(true)),
            decreases items.len() - i,
        {
            let mark = match items[i].as_bool() {
                Some(b) => b,
                None => false,
            };
            marks.push(mark);
            i = i + 1;
        }
        assert(marks@ =~= default_marks(default_value.model()));
    } else {
        assert(marks@ =~= default_marks(default_value.model()));
    }
    MultipleChoiceConfig { prompt: prompt.to_owned(), choices: copy_strings(choices), defaults: marks }
}

/// The prompt for a yes/no question.
pub fn confirmation_config(prompt: &str, default_value: &Value) -> (r: ConfirmationConfig)
    ensures
        r.prompt@ == prompt@,
        r.default == default_flag(default_value.model()),
        r@ == confirmation_view(prompt@, default_value.model()),
{
    let flag = match default_value.as_bool() {
        Some(b) => b,
        None => false,
    };
    ConfirmationConfig { prompt: prompt.to_owned(), default: flag }
}

/// What a reply to a single-choice prompt stands for: the label at the index,
/// or a validation error for an index that names no choice.
pub open spec fn single_choice_reply(choices: Seq<Seq<char>>, selection: int) -> Result<
    Json,
    ErrorView,
> {
    if 0 <= selection < choices.len() {
        Ok(Json::String(choices[selection]))
    } else {
        Err(ErrorView::ValidationError("the selected choice is out of range"@))
    }
}

/// What a reply to a multiple-choice prompt stands for: the labels at the
/// indices, in the order of the reply; or a validation error where an index
/// names no choice.
pub open spec fn multiple_choice_reply(choices: Seq<Seq<char>>, selection: Seq<usize>) -> Result<
    Json,
    ErrorView,
> {
    if forall|k: int| 0 <= k < selection.len() ==> (#[trigger] selection[k]) < choices.len() {
        Ok(Json::Array(Seq::new(selection.len(), |k: int| Json::String(choices[selection[k] as int]))))
    } else {
        Err(ErrorView::ValidationError("the selected choice is out of range"@))
    }
}

/// What two entries of a secret stand for: the secret where they agree, a
/// validation error where they differ.
pub open spec fn secret_reply(first: Seq<char>, second: Seq<char>, secret: Secret) -> Result<
    Json,
    ErrorView,
> {
    if first == second {
        Ok(Json::String(first))
    } else {
        Err(ErrorView::ValidationError(mismatch_text(secret)))
    }
}

/// A value and its model, for results.
pub open spec fn answer_view(r: Result<Value, Error>) -> Result<Json, ErrorView> {
    match r {
        Ok(value) => Ok(value.model()),
        Err(e) => Err(e@),
    }
}

/// The answer that a reply to a single-choice prompt gives.
pub fn single_choice_answer(choices: &Vec<String>, selection: usize) -> (r: Result<Value, Error>)
    ensures
        answer_view(r) == single_choice_reply(views(choices@), selection as int),
{
    if selection < choices.len() {
        Ok(Value::String(choices[selection].clone()))
    } else {
        Err(Error::ValidationError("the selected choice is out of range".to_owned()))
    }
}

/// The answer that a reply to a multiple-choice prompt gives.
pub fn multiple_choice_answer(choices: &Vec<String>, selection: &Vec<usize>) -> (r: Result<
    Value,
    Error,
>)
    ensures
        answer_view(r) == multiple_choice_reply(views(choices@), selection@),
{
    let mut out: Vec<Value> = Vec::new();
    let mut i: usize = 0;
    while i < selection.len()
        invariant
            i <= selection.len(),
            out.len() == i,
            forall|k: int| 0 <= k < i ==> (#[trigger] selection[k]) < choices.len(),
            forall|k: int|
                0 <= k < i ==> (#[trigger] out[k]).model() == Json::String(
                    views(choices@)[selection[k] as int],
                ),
        decreases selection.len() - i,
    {
        let index = selection[i];
        if index >= choices.len() {
            return Err(Error::ValidationError("the selected choice is out of range".to_owned()));
        }
        out.push(Value::String(choices[index].clone()));
        i = i + 1;
    }
    assert(models(out) =~= Seq::new(
        selection@.len(),
        |k: int| Json::String(views(choices@)[selection@[k] as int]),
    ));
    Ok(Value::Array(out))
}

/// The answer that two entries of a secret give. A secret whose second entry
/// differs from the first is never accepted.
pub fn secret_answer(first: String, second: &str, secret: &Secret) -> (r: Result<Value, Error>)
    ensures
        answer_view(r) == secret_reply(first@, second@, *secret),
{
    if text_eq(first.as_str(), second) {
        Ok(Value::String(first))
    } else if secret.mistmatch_err.as_str().unicode_len() == 0 {
        Err(Error::ValidationError("Mistmatch".to_owned()))
    } else {
        Err(Error::ValidationError(secret.mistmatch_err.clone()))
    }
}

/// Whether `label` is one of `choices`.
pub open spec fn is_choice(choices: Seq<Seq<char>>, label: Seq<char>) -> bool {
    exists|i: int| 0 <= i < choices.len() && #[trigger] choices[i] == label
}

/// Whether `answer` is what a prompt for the question can give: text for a
/// text question, a boolean for a yes/no question, one of the choices for a
/// single-choice question, choices only for a multiple-choice question.
pub open spec fn prompt_shaped(question: Question, answer: Json) -> bool {
    match question.kind() {
        QuestionType::Text => answer is String,
        QuestionType::Boolean => answer is Bool,
        QuestionType::SingleChoice => answer is String && is_choice(
            views(question.choices@),
            answer->String_0,
        ),
        QuestionType::MultipleChoice => answer is Array && forall|k: int|
            0 <= k < answer->Array_0.len() ==> (#[trigger] answer->Array_0[k]) is String
                && is_choice(views(question.choices@), answer->Array_0[k]->String_0),
    }
}

/// What becomes of the reply to a text prompt: the entry as the answer, or
/// the failure. Where the secret is to be confirmed, `second` is what the
/// confirming prompt handed back: the entry is the answer only if the second
/// entry is the same.
pub open spec fn text_outcome(
    first: Result<Seq<char>, ErrorView>,
    second: Option<Result<Seq<char>, ErrorView>>,
    secret: Option<Secret>,
) -> Result<Json, ErrorView> {
    match first {
        Err(e) => Err(e),
        Ok(entry) => match second {
            None => Ok(Json::String(entry)),
            Some(Err(e)) => Err(e),
            Some(Ok(again)) => secret_reply(entry, again, secret->Some_0),
        },
    }
}

/// Whether the secret of a question has to be entered twice.
pub open spec fn confirms_secret(question: Question) -> bool {
    question.secret is Some && question.secret->Some_0.confirm
}

/// Whether `outcome` is what asking the question through the prompter gives:
/// the answer made of the prompter's reply, or the failure.
/// A yes/no question shows a confirmation and takes the reply. A
/// single-choice question shows a selection and takes the label at the index
/// that comes back; a multiple-choice question takes the labels at the indices
/// that come back, in their order; an index that names no choice is a
/// validation error. A text question shows a text prompt and takes the entry;
/// where its secret is to be confirmed, a second prompt, marked as the
/// confirmation, is shown, and entries that differ are a validation error. A
/// prompt that fails is the failure of the whole.
pub open spec fn replied<
    P: TextPrompter + SingleChoicePrompter + MultipleChoicePrompter + ConfirmationPrompter,
>(
    prompter: P,
    question: Question,
    default: Json,
    prompt: Seq<char>,
    outcome: Result<Json, ErrorView>,
) -> bool {
    match question.kind() {
        QuestionType::Boolean => exists|reply: Result<bool, ErrorView>|
            #[trigger] prompter.confirmed(confirmation_view(prompt, default), reply) && outcome
                == match reply {
                Ok(flag) => Ok::<Json, ErrorView>(Json::Bool(flag)),
                Err(e) => Err::<Json, ErrorView>(e),
            },
        QuestionType::SingleChoice => exists|reply: Result<usize, ErrorView>|
            #[trigger] prompter.selected(
                single_choice_view(prompt, views(question.choices@), default),
                reply,
            ) && outcome == match reply {
                Ok(selection) => single_choice_reply(views(question.choices@), selection as int),
                Err(e) => Err::<Json, ErrorView>(e),
            },
        QuestionType::MultipleChoice => exists|reply: Result<Seq<usize>, ErrorView>|
            #[trigger] prompter.marked(
                multiple_choice_view(prompt, views(question.choices@), default),
                reply,
            ) && outcome == match reply {
                Ok(selection) => multiple_choice_reply(views(question.choices@), selection),
                Err(e) => Err::<Json, ErrorView>(e),
            },
        QuestionType::Text => exists|first: Result<Seq<char>, ErrorView>|
            #[trigger] prompter.entered(text_view(prompt, default, question.secret), first) && (
            if first is Ok && confirms_secret(question) {
                exists|second: Result<Seq<char>, ErrorView>|
                    #[trigger] prompter.entered(
                        text_view(prompt + " (confirm)"@, default, question.secret),
                        second,
                    ) && outcome == text_outcome(first, Some(second), question.secret)
            } else {
                outcome == text_outcome(first, None, question.secret)
            }),
    }
}

/// A copy of the secret settings.
pub fn copy_secret(secret: &Option<Secret>) -> (r: Option<Secret>)
    ensures
        match (r, secret) {
            (Some(a), Some(b)) => a.confirm == b.confirm && a.mistmatch_err@ == b.mistmatch_err@,
            (None, None) => true,
            _ => false,
        },
{
    match secret {
        Some(s) => Some(Secret { confirm: s.confirm, mistmatch_err: s.mistmatch_err.clone() }),
        None => None,
    }
}

/// Puts the question to the user, with the prompt fit for its type, and turns
/// the reply into an answer. The reply is the user's, and the prompt can fail:
/// whatever comes back, answer or error, is what [`replied`] makes of what the
/// prompter handed back for the prompt that was shown. A secret entered twice
/// comes back only where both entries agree.
pub fn ask<P: TextPrompter + SingleChoicePrompter + MultipleChoicePrompter + ConfirmationPrompter>(
    prompter: &P,
    question: &Question,
    default_value: &Value,
    prompt: &str,
) -> (r: Result<Value, Error>)
    ensures
        r is Ok ==> prompt_shaped(*question, r->Ok_0.model()),
        replied(*prompter, *question, default_value.model(), prompt@, answer_view(r)),
{
    match question.question_type() {
        QuestionType::MultipleChoice => {
            let config = multiple_choice_config(prompt, &question.choices, default_value);
            match prompter.prompt_multiple_choice(&config) {
                Ok(selection) => {
                    let r = multiple_choice_answer(&question.choices, &selection);
                    proof {
                        if r is Ok {
                            let items = r->Ok_0.model()->Array_0;
                            assert forall|k: int| 0 <= k < items.len() implies (
                            #[trigger] items[k]) is String && is_choice(
                                views(question.choices@),
                                items[k]->String_0,
                            ) by {
                                assert(selection@[k] < question.choices@.len());
                                assert(views(question.choices@)[selection@[k] as int]
                                    == items[k]->String_0);
                            }
                        }
                    }
                    r
                },
                Err(e) => Err(e),
            }
        },
        QuestionType::SingleChoice => {
            let config = single_choice_config(prompt, &question.choices, default_value);
            match prompter.prompt_single_choice(&config) {
                Ok(selection) => {
                    let r = single_choice_answer(&question.choices, selection);
                    proof {
                        if r is Ok {
                            assert(views(question.choices@)[selection as int]
                                == r->Ok_0.model()->String_0);
                        }
                    }
                    r
                },
                Err(e) => Err(e),
            }
        },
        QuestionType::Text => {
            let config = text_config(prompt, default_value, copy_secret(&question.secret));
            match prompter.prompt_text(&config) {
                Ok(first) => {
                    match &question.secret {
                        Some(secret) => {
                            if secret.confirm {
                                let again = concat(prompt, " (confirm)");
                                let second_config = text_config(
                                    again.as_str(),
                                    default_value,
                                    copy_secret(&question.secret),
                                );
                                match prompter.prompt_text(&second_config) {
                                    Ok(second) => secret_answer(first, second.as_str(), secret),
                                    Err(e) => Err(e),
                                }
                            } else {
                                Ok(Value::String(first))
                            }
                        },
                        None => Ok(Value::String(first)),
                    }
                },
                Err(e) => Err(e),
            }
        },
        QuestionType::Boolean => {
            let config = confirmation_config(prompt, default_value);
            match prompter.prompt_confirmation(&config) {
                Ok(b) => Ok(Value::Bool(b)),
                Err(e) => Err(e),
            }
        },
    }
}

/// Asks whether to go on, unless `skip` says that asking is not needed: then
/// the answer is yes and nobody is asked. Else what comes back, answer or
/// error, is what the prompter handed back for a confirmation that shows
/// `prompt` and starts on no.
pub fn confirm<P: ConfirmationPrompter>(prompter: &P, skip: bool, prompt: String) -> (r: Result<
    bool,
    Error,
>)
    ensures
        skip ==> r == Ok::<bool, Error>(true),
        !skip ==> prompter.confirmed(
            (ConfirmationView { prompt: prompt@, default: false }),
            flag_reply(r),
        ),
{
    if skip {
        return Ok(true);
    }
    let config = ConfirmationConfig { prompt, default: false };
    prompter.prompt_confirmation(&config)
}

} // verus!
