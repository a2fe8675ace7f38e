//! The rendering primitive: a template and a context in, text out.
use vstd::prelude::*;
use vstd::string::*;

use crate::error::Error;
use crate::json::json_text;
use crate::value::{Json, Value};

verus! {

/// What MiniJinja renders `template` to, in a fresh environment with the
/// default syntax, against the context that the JSON text `context` denotes;
/// or the message of the error that reading the context or rendering reports.
pub uninterp spec fn minijinja_render(template: Seq<char>, context: Seq<char>) -> Result<
    Seq<char>,
    Seq<char>,
>;

/// Whether MiniJinja holds the value of `expression` to be true, in a fresh
/// environment, against the context that the JSON text `context` denotes; or
/// the message of the error that reading the context, compiling or evaluating
/// reports.
pub uninterp spec fn minijinja_truth(expression: Seq<char>, context: Seq<char>) -> Result<
    bool,
    Seq<char>,
>;

/// Whether `serde_json::from_str` reads `text` as a JSON value.
pub uninterp spec fn context_reads(text: Seq<char>) -> bool;

/// Whether `s` ends in a line feed or a carriage return.
pub open spec fn ends_with_line_break(s: Seq<char>) -> bool {
    s.len() > 0 && (s.last() == '\n' || s.last() == '\r')
}

/// Whether `template` holds what starts an expression, a statement or a
/// comment: `{` followed by `{`, `%` or `#`.
pub open spec fn has_marker(template: Seq<char>) -> bool {
    exists|i: int|
        0 <= i && i + 1 < template.len() && #[trigger] template[i] == '{' && (template[i + 1]
            == '{' || template[i + 1] == '%' || template[i + 1] == '#')
}

/// Whether `template` is free of expressions, statements and comments, and of
/// the final line break that the engine drops.
pub open spec fn is_plain(template: Seq<char>) -> bool {
    !has_marker(template) && !ends_with_line_break(template)
}

/// A template engine. An engine is a function: what it gives depends on the
/// template and the context alone, and [`TemplateRenderer::rendered`] and
/// [`TemplateRenderer::truth`] stand for that function. An engine written
/// outside of verified code leaves both as they are and is taken at its word.
pub trait TemplateRenderer {
    /// What rendering `template` against `context` gives: the text, or the
    /// message of the failure.
    open spec fn rendered(&self, template: Seq<char>, context: Json) -> Result<
        Seq<char>,
        Seq<char>,
    > {
        arbitrary()
    }

    /// What evaluating `expression` against `context` as a condition gives.
    open spec fn truth(&self, expression: Seq<char>, context: Json) -> Result<bool, Seq<char>> {
        arbitrary()
    }

    /// Renders a template string with the given context.
    fn render(&self, template: &str, context: &Value) -> (r: Result<String, Error>)
        ensures
            match r {
                Ok(text) => self.rendered(template@, context.model()) == Ok::<
                    Seq<char>,
                    Seq<char>,
                >(text@),
                Err(Error::MinijinjaError(message)) => self.rendered(template@, context.model())
                    == Err::<Seq<char>, Seq<char>>(message@),
                Err(_) => false,
            },
    ;

    /// Evaluates an expression with the given context and tells whether its
    /// value counts as true.
    fn execute_expression(&self, expression: &str, context: &Value) -> (r: Result<bool, Error>)
        ensures
            match r {
                Ok(b) => self.truth(expression@, context.model()) == Ok::<bool, Seq<char>>(b),
                Err(Error::MinijinjaError(message)) => self.truth(expression@, context.model())
                    == Err::<bool, Seq<char>>(message@),
                Err(_) => false,
            },
    ;
}

/// MiniJinja-based template rendering engine.
pub struct MiniJinjaRenderer {}

/// `minijinja::Environment::render_str` on a new `minijinja::Environment`, with
/// the context read from JSON text by `serde_json::from_str`. The result is
/// named, not described, but for two facts. A context that is not read is an
/// error. And a template that holds none of `{{`, `{%` and `{#` holds no
/// expression, statement or comment: against any context that is read, the
/// engine passes it through but for one final line break, which it drops
/// first.
#[verifier::external_body]
fn render_with_json(template: &str, context: &str) -> (r: Result<String, String>)
    ensures
        match r {
            Ok(text) => minijinja_render(template@, context@) == Ok::<Seq<char>, Seq<char>>(text@),
            Err(message) => minijinja_render(template@, context@) == Err::<Seq<char>, Seq<char>>(
                message@,
            ),
        },
        !context_reads(context@) ==> r is Err,
        is_plain(template@) && context_reads(context@) ==> r is Ok,
        is_plain(template@) && r is Ok ==> r->Ok_0@ == template@,
{
    let context: serde_json::Value = serde_json::from_str(context).map_err(|e| e.to_string())?;
    minijinja::Environment::new().render_str(template, context).map_err(|e| e.to_string())
}

/// `minijinja::Environment::compile_expression` on a new
/// `minijinja::Environment`, then `minijinja::Expression::eval` and
/// `minijinja::Value::is_true`, with the context read from JSON text by
/// `serde_json::from_str`.
#[verifier::external_body]
fn evaluate_with_json(expression: &str, context: &str) -> (r: Result<bool, String>)
    ensures
        match r {
            Ok(b) => minijinja_truth(expression@, context@) == Ok::<bool, Seq<char>>(b),
            Err(message) => minijinja_truth(expression@, context@) == Err::<bool, Seq<char>>(
                message@,
            ),
        },
{
    let context: serde_json::Value = serde_json::from_str(context).map_err(|e| e.to_string())?;
    let environment = minijinja::Environment::new();
    let compiled = environment.compile_expression(expression).map_err(|e| e.to_string())?;
    compiled.eval(context).map(|value| value.is_true()).map_err(|e| e.to_string())
}

impl MiniJinjaRenderer {
    /// Creates a new engine with the default environment.
    pub fn new() -> Self {
        MiniJinjaRenderer {  }
    }
}

impl TemplateRenderer for MiniJinjaRenderer {
    open spec fn rendered(&self, template: Seq<char>, context: Json) -> Result<
        Seq<char>,
        Seq<char>,
    > {
        minijinja_render(template, json_text(context))
    }

    open spec fn truth(&self, expression: Seq<char>, context: Json) -> Result<bool, Seq<char>> {
        minijinja_truth(expression, json_text(context))
    }

    /// Renders a template string using MiniJinja. A template that
    /// [`is_plain`] renders exactly where the JSON text of the context is
    /// read, and comes back unchanged.
    fn render(&self, template: &str, context: &Value) -> (r: Result<String, Error>)
        ensures
            !context_reads(json_text(context.model())) ==> r is Err,
            is_plain(template@) ==> (r is Ok <==> context_reads(json_text(context.model()))),
            is_plain(template@) && r is Ok ==> r->Ok_0@ == template@,
    {
        let context_text = context.to_json();
        match render_with_json(template, context_text.as_str()) {
            Ok(text) => Ok(text),
            Err(message) => Err(Error::MinijinjaError(message)),
        }
    }

    fn execute_expression(&self, expression: &str, context: &Value) -> (r: Result<bool, Error>) {
        let context_text = context.to_json();
        match evaluate_with_json(expression, context_text.as_str()) {
            Ok(b) => Ok(b),
            Err(message) => Err(Error::MinijinjaError(message)),
        }
    }
}

} // verus!
