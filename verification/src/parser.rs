//! The answer resolution engine: turns the ordered questions and the supplied
//! answer sources into the answer context, one key after the other.
use vstd::prelude::*;
use vstd::string::*;

use crate::error::{Error, ErrorView};
use crate::prompt::{
    ask, prompt_shaped, replied, ConfirmationPrompter, MultipleChoicePrompter, SingleChoicePrompter,
    TextPrompter,
};
use crate::question::Question;
use crate::renderer::TemplateRenderer;
use crate::value::{member_models, models, Json, Value};

verus! {

/// `indexmap::IndexMap`: a hash map that keeps its entries in the order in
/// which they were inserted. Nothing of its inside is known here;
/// [`question_entries`] names what a question set holds.
#[verifier::external_type_specification]
#[verifier::external_body]
#[verifier::reject_recursive_types(K)]
#[verifier::reject_recursive_types(V)]
#[verifier::reject_recursive_types(S)]
pub struct ExIndexMap<K, V, S>(indexmap::IndexMap<K, V, S>);

/// The entries of a question set, in insertion order: each key with its question.
pub uninterp spec fn question_entries(questions: indexmap::IndexMap<String, Question>) -> Seq<
    (Seq<char>, Question),
>;

/// `indexmap::IndexMap::len`: the number of entries.
#[verifier::external_body]
fn question_count(questions: &indexmap::IndexMap<String, Question>) -> (n: usize)
    ensures
        n == question_entries(*questions).len(),
{
    questions.len()
}

/// `indexmap::IndexMap::get_index`: the entry at `index` in insertion order,
/// nothing where `index` is not below the number of entries.
#[verifier::external_body]
fn question_at(questions: &indexmap::IndexMap<String, Question>, index: usize) -> (r: Option<
    (&String, &Question),
>)
    ensures
        match r {
            Some((key, question)) => index < question_entries(*questions).len() && key@
                == question_entries(*questions)[index as int].0 && *question == question_entries(
                *questions,
            )[index as int].1,
            None => index >= question_entries(*questions).len(),
        },
{
    questions.get_index(index)
}

/// The answer that the sources supply for `key`: that of the first source, in
/// the order of their rank, that has the key.
pub open spec fn supplied(sources: Seq<Json>, key: Seq<char>) -> Option<Json>
    decreases sources.len(),
{
    if sources.len() == 0 {
        None
    } else {
        match sources[0].get(key) {
            Some(value) => Some(value),
            None => supplied(sources.drop_first(), key),
        }
    }
}

/// The answer to a question that needs no prompt, if it needs none. A question
/// whose condition fails takes its default and no source is consulted. A
/// question that is asked takes what the sources supply. Where they supply
/// nothing, the answer is the user's, and this is `None`.
pub open spec fn settled<E: TemplateRenderer>(
    engine: E,
    key: Seq<char>,
    question: Question,
    context: Json,
    sources: Seq<Json>,
) -> Option<Json> {
    if !question.asks(engine, context) {
        Some(question.resolved_default(engine, context))
    } else {
        supplied(sources, key)
    }
}

/// Whether `answer` can be the answer to the question: the settled answer
/// where there is one; else what the prompter's reply gives, to the prompt
/// for the question with its resolved default and its rendered help.
pub open spec fn answer_fits<
    E: TemplateRenderer,
    P: TextPrompter + SingleChoicePrompter + MultipleChoicePrompter + ConfirmationPrompter,
>(
    engine: E,
    prompter: P,
    key: Seq<char>,
    question: Question,
    context: Json,
    sources: Seq<Json>,
    answer: Json,
) -> bool {
    match settled(engine, key, question, context, sources) {
        Some(value) => answer == value,
        None => prompt_shaped(question, answer) && replied(
            prompter,
            question,
            question.resolved_default(engine, context),
            question.rendered_help(engine, context),
            Ok(answer),
        ),
    }
}

/// The answers to all the questions, where none of them needs a prompt: each
/// question is settled against the answers to the questions before it.
pub open spec fn settled_answers<E: TemplateRenderer>(
    engine: E,
    entries: Seq<(Seq<char>, Question)>,
    sources: Seq<Json>,
) -> Option<Seq<(Seq<char>, Json)>>
    decreases entries.len(),
{
    if entries.len() == 0 {
        Some(Seq::<(Seq<char>, Json)>::empty())
    } else {
        match settled_answers(engine, entries.drop_last(), sources) {
            None => None,
            Some(init) => match settled(
                engine,
                entries.last().0,
                entries.last().1,
                Json::Object(init),
                sources,
            ) {
                Some(value) => Some(init.push((entries.last().0, value))),
                None => None,
            },
        }
    }
}

/// Whether `members` answer `entries` in order: key by key, each answer
/// fitting its question against the answers before it, and no others.
pub open spec fn answers_fit<
    E: TemplateRenderer,
    P: TextPrompter + SingleChoicePrompter + MultipleChoicePrompter + ConfirmationPrompter,
>(
    engine: E,
    prompter: P,
    entries: Seq<(Seq<char>, Question)>,
    sources: Seq<Json>,
    members: Seq<(Seq<char>, Json)>,
) -> bool {
    &&& members.len() == entries.len()
    &&& forall|i: int|
        #![trigger members[i]]
        0 <= i < entries.len() ==> members[i].0 == entries[i].0 && answer_fits(
            engine,
            prompter,
            entries[i].0,
            entries[i].1,
            Json::Object(members.subrange(0, i)),
            sources,
            members[i].1,
        )
}

/// Whether resolving `entries` can end with `error`: some question, whose
/// predecessors all got answers that fit, is not settled, and asking it,
/// with its resolved default and its rendered help against those answers,
/// failed with `error`.
pub open spec fn stopped_with<
    E: TemplateRenderer,
    P: TextPrompter + SingleChoicePrompter + MultipleChoicePrompter + ConfirmationPrompter,
>(
    engine: E,
    prompter: P,
    entries: Seq<(Seq<char>, Question)>,
    sources: Seq<Json>,
    error: ErrorView,
) -> bool {
    exists|members: Seq<(Seq<char>, Json)>|
        #[trigger] stopped_after(engine, prompter, entries, sources, members, error)
}

/// Whether resolving `entries` can end with `error` once `members` are
/// answered: they fit the questions that they answer, the next question is
/// not settled, and asking it failed with `error`.
pub open spec fn stopped_after<
    E: TemplateRenderer,
    P: TextPrompter + SingleChoicePrompter + MultipleChoicePrompter + ConfirmationPrompter,
>(
    engine: E,
    prompter: P,
    entries: Seq<(Seq<char>, Question)>,
    sources: Seq<Json>,
    members: Seq<(Seq<char>, Json)>,
    error: ErrorView,
) -> bool {
    let at = members.len() as int;
    &&& at < entries.len()
    &&& answers_fit(engine, prompter, entries.subrange(0, at), sources, members)
    &&& settled(engine, entries[at].0, entries[at].1, Json::Object(members), sources) is None
    &&& replied(
        prompter,
        entries[at].1,
        entries[at].1.resolved_default(engine, Json::Object(members)),
        entries[at].1.rendered_help(engine, Json::Object(members)),
        Err(error),
    )
}

/// What is to be done for one question.
#[derive(Debug)]
pub enum Resolution {
    /// The answer is known; nobody is asked.
    Settled(Value),
    /// The user is asked, with this default and this help text.
    Prompt { default: Value, help: String },
}

/// The sources in the order of their rank: the explicit override first, then
/// what the pre-generation hook gave, each only where there is one.
pub fn get_answers_from(explicit_override: Option<Value>, pre_hook_output: Option<Value>) -> (r:
    Vec<Value>)
    ensures
        models(r) == match (explicit_override, pre_hook_output) {
            (Some(a), Some(b)) => seq![a.model(), b.model()],
            (Some(a), None) => seq![a.model()],
            (None, Some(b)) => seq![b.model()],
            (None, None) => Seq::<Json>::empty(),
        },
{
    let mut r: Vec<Value> = Vec::new();
    if let Some(a) = explicit_override {
        r.push(a);
    }
    if let Some(b) = pre_hook_output {
        r.push(b);
    }
    assert(models(r) =~= match (explicit_override, pre_hook_output) {
        (Some(a), Some(b)) => seq![a.model(), b.model()],
        (Some(a), None) => seq![a.model()],
        (None, Some(b)) => seq![b.model()],
        (None, None) => Seq::<Json>::empty(),
    });
    r
}

/// The answer that the sources supply for `key`.
pub fn lookup<'a>(sources: &'a Vec<Value>, key: &str) -> (r: Option<&'a Value>)
    ensures
        match r {
            Some(value) => supplied(models(*sources), key@) == Some(value.model()),
            None => supplied(models(*sources), key@).is_none(),
        },
{
    let ghost all = models(*sources);
    let mut i: usize = 0;
    assert(all.subrange(0, all.len() as int) =~= all);
    while i < sources.len()
        invariant
            i <= sources.len(),
            all == models(*sources),
            supplied(all, key@) == supplied(all.subrange(i as int, all.len() as int), key@),
        decreases sources.len() - i,
    {
        let ghost rest = all.subrange(i as int, all.len() as int);
        assert(rest[0] == sources[i as int].model());
        assert(rest.drop_first() =~= all.subrange(i + 1, all.len() as int));
        match sources[i].get(key) {
            Some(value) => {
                return Some(value);
            },
            None => {},
        }
        i = i + 1;
    }
    None
}

/// Decides about one question: whether its answer is settled or the user has
/// to be asked. A value that a source supplies wins over asking.
pub fn resolve<E: TemplateRenderer>(
    engine: &E,
    key: &str,
    question: &Question,
    context: &Value,
    sources: &Vec<Value>,
) -> (r: Resolution)
    ensures
        match settled(*engine, key@, *question, context.model(), models(*sources)) {
            Some(value) => r is Settled && r->Settled_0.model() == value,
            None => r is Prompt && r->Prompt_default.model() == question.resolved_default(
                *engine,
                context.model(),
            ) && r->Prompt_help@ == question.rendered_help(*engine, context.model()),
        },
{
    let rendered = question.render(engine, context);
    if !rendered.ask_if {
        return Resolution::Settled(rendered.default);
    }
    match lookup(sources, key) {
        Some(value) => Resolution::Settled(value.duplicate()),
        None => {
            let help = match rendered.help {
                Some(help) => help,
                None => question.help.clone(),
            };
            Resolution::Prompt { default: rendered.default, help }
        },
    }
}

/// A missing answer among the first `n` questions is missing among all.
pub proof fn lemma_unsettled_prefix<E: TemplateRenderer>(
    engine: E,
    entries: Seq<(Seq<char>, Question)>,
    sources: Seq<Json>,
    n: int,
)
    requires
        0 <= n <= entries.len(),
        settled_answers(engine, entries.subrange(0, n), sources) is None,
    ensures
        settled_answers(engine, entries, sources) is None,
    decreases entries.len() - n,
{
    if n < entries.len() {
        assert(entries.subrange(0, n + 1).drop_last() =~= entries.subrange(0, n));
        lemma_unsettled_prefix(engine, entries, sources, n + 1);
    } else {
        assert(entries.subrange(0, n) =~= entries);
    }
}

/// Sequential visibility. Where no question needs a prompt, the answers to the
/// first `n` questions are what those `n` questions alone would get: a
/// question sees the answers before it and nothing of what comes later.
pub proof fn lemma_answers_see_only_earlier_ones<E: TemplateRenderer>(
    engine: E,
    entries: Seq<(Seq<char>, Question)>,
    sources: Seq<Json>,
    n: int,
)
    requires
        0 <= n <= entries.len(),
        settled_answers(engine, entries, sources) is Some,
    ensures
        settled_answers(engine, entries, sources)->Some_0.len() == entries.len(),
        settled_answers(engine, entries.subrange(0, n), sources) == Some(
            settled_answers(engine, entries, sources)->Some_0.subrange(0, n),
        ),
    decreases entries.len(),
{
    let all = settled_answers(engine, entries, sources)->Some_0;
    if entries.len() == 0 {
        assert(entries.subrange(0, n) =~= entries);
        assert(all.subrange(0, n) =~= all);
    } else {
        let init = entries.drop_last();
        lemma_answers_see_only_earlier_ones(engine, init, sources, init.len() as int);
        if n == entries.len() {
            assert(entries.subrange(0, n) =~= entries);
            assert(all.subrange(0, n) =~= all);
        } else {
            lemma_answers_see_only_earlier_ones(engine, init, sources, n);
            assert(init.subrange(0, n) =~= entries.subrange(0, n));
            assert(settled_answers(engine, init, sources)->Some_0.subrange(0, n) =~= all.subrange(
                0,
                n,
            ));
        }
    }
}

/// Answer-source precedence. A question that is asked and for whose key a
/// source supplies a value is settled with that value: the value of the
/// highest-ranked such source wins, and the user is not asked.
pub proof fn lemma_supplied_answer_wins<E: TemplateRenderer>(
    engine: E,
    key: Seq<char>,
    question: Question,
    context: Json,
    sources: Seq<Json>,
    rank: int,
)
    requires
        question.asks(engine, context),
        0 <= rank < sources.len(),
        sources[rank].get(key) is Some,
        forall|i: int| 0 <= i < rank ==> (#[trigger] sources[i]).get(key) is None,
    ensures
        settled(engine, key, question, context, sources) == sources[rank].get(key),
    decreases rank,
{
    if rank > 0 {
        let rest = sources.drop_first();
        assert(sources[0].get(key) is None);
        assert forall|i: int| 0 <= i < rank - 1 implies (#[trigger] rest[i]).get(key) is None by {
            assert(rest[i] == sources[i + 1]);
        }
        assert(rest[rank - 1] == sources[rank]);
        lemma_supplied_answer_wins(engine, key, question, context, rest, rank - 1);
    }
}

/// Resolves the questions in their order into the answer context. Each
/// question is decided against the answers to the questions before it: it
/// takes its default where its condition fails, else what the highest-ranked
/// source supplies for its key, else what the user replies. Every key gets
/// exactly one answer, in the order of the questions.
///
/// Where no question needs the user, the outcome is `Ok` and is exactly
/// [`settled_answers`]. An answer that the user gave is what the prompter's
/// reply makes of it. Only asking can fail, and the failure of the first
/// question that fails is the failure of the whole.
pub fn get_answers<
    E: TemplateRenderer,
    P: TextPrompter + SingleChoicePrompter + MultipleChoicePrompter + ConfirmationPrompter,
>(
    engine: &E,
    prompt: &P,
    questions: &indexmap::IndexMap<String, Question>,
    preloaded_answers: &Vec<Value>,
) -> (r: Result<Value, Error>)
    ensures
        r is Ok ==> r->Ok_0.model() is Object && answers_fit(
            *engine,
            *prompt,
            question_entries(*questions),
            models(*preloaded_answers),
            r->Ok_0.model()->Object_0,
        ),
        r is Err ==> stopped_with(
            *engine,
            *prompt,
            question_entries(*questions),
            models(*preloaded_answers),
            r->Err_0@,
        ),
        settled_answers(*engine, question_entries(*questions), models(*preloaded_answers))
            is Some ==> r is Ok && r->Ok_0.model() == Json::Object(
            settled_answers(
                *engine,
                question_entries(*questions),
                models(*preloaded_answers),
            )->Some_0,
        ),
{
    let ghost entries = question_entries(*questions);
    let ghost sources = models(*preloaded_answers);
    let n = question_count(questions);
    let mut answers: Vec<(String, Value)> = Vec::new();
    let mut i: usize = 0;
    assert(entries.subrange(0, 0) =~= Seq::<(Seq<char>, Question)>::empty());
    assert(member_models(answers) =~= Seq::<(Seq<char>, Json)>::empty());
    while i < n
        invariant
            n == entries.len(),
            entries == question_entries(*questions),
            sources == models(*preloaded_answers),
            i <= n,
            answers_fit(
                *engine,
                *prompt,
                entries.subrange(0, i as int),
                sources,
                member_models(answers),
            ),
            settled_answers(*engine, entries.subrange(0, i as int), sources) is Some
                ==> settled_answers(*engine, entries.subrange(0, i as int), sources) == Some(
                member_models(answers),
            ),
        decreases n - i,
    {
        let ghost before = member_models(answers);
        let ghost done = entries.subrange(0, i as int);
        let ghost next = entries.subrange(0, i + 1);
        assert(next.drop_last() =~= done);
        assert(next.last() == entries[i as int]);
        let (key, question) = match question_at(questions, i) {
            Some(entry) => entry,
            None => {
                assert(false);
                return Err(Error::TemplateSourceInvalidError);
            },
        };
        let context = Value::Object(answers);
        let resolution = resolve(engine, key.as_str(), question, &context, preloaded_answers);
        answers = match context {
            Value::Object(members) => members,
            _ => Vec::new(),
        };
        let value = match resolution {
            Resolution::Settled(value) => value,
            Resolution::Prompt { default, help } => {
                match ask(prompt, question, &default, help.as_str()) {
                    Ok(value) => value,
                    Err(e) => {
                        proof {
                            lemma_unsettled_prefix(*engine, entries, sources, i + 1);
                            assert(before.len() == i);
                            assert(stopped_after(*engine, *prompt, entries, sources, before, e@));
                        }
                        return Err(e);
                    },
                }
            },
        };
        let ghost answer = value.model();
        answers.push((key.clone(), value));
        proof {
            let after = member_models(answers);
            assert(after =~= before.push((key@, answer)));
            assert(after.subrange(0, i as int) =~= before);
            assert forall|k: int| 0 <= k < next.len() implies after[k].0 == next[k].0
                && answer_fits(
                *engine,
                *prompt,
                next[k].0,
                next[k].1,
                Json::Object(after.subrange(0, k)),
                sources,
                after[k].1,
            ) by {
                if k < i {
                    assert(before[k] == after[k]);
                    assert(after.subrange(0, k) =~= before.subrange(0, k));
                    assert(done[k] == next[k]);
                }
            }
        }
        i = i + 1;
    }
    assert(entries.subrange(0, i as int) =~= entries);
    Ok(Value::Object(answers))
}

} // verus!
