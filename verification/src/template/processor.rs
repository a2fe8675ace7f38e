//! The decision on one template entry: where it goes in the output tree and
//! what has to be done for it.
use vstd::prelude::*;
use vstd::string::*;

use crate::error::{result_view, Error, ErrorView};
use crate::ignore::IgnoreMatcher;
use crate::renderer::TemplateRenderer;
use crate::template::operation::{OperationView, TemplateOperation};
use crate::text::{
    chars_of, concat, ends_with, has_char, join, join_text, lemma_ends_with_last_piece,
    lemma_split_nonempty, lemma_split_pieces_free, push_char, split, split_text, starts_with,
    text_ends_with, text_eq, text_starts_with, views,
};
use crate::value::{Json, Value};

verus! {

/// What separates the segments of a path.
pub const SEPARATOR: char = '/';

/// Whether no segment of the template that holds something came out of
/// rendering empty. Segments are compared position by position, as far as both
/// paths have them.
pub open spec fn parts_valid(template_parts: Seq<Seq<char>>, rendered_parts: Seq<Seq<char>>) -> bool {
    forall|i: int|
        #![trigger template_parts[i]]
        0 <= i < template_parts.len() && i < rendered_parts.len() ==> !(template_parts[i].len() > 0
            && rendered_parts[i].len() == 0)
}

/// The last segment of a path.
pub open spec fn file_name(path: Seq<char>) -> Seq<char> {
    split(path, '/').last()
}

/// `path` relative to `root`, if it lies at or under `root`.
pub open spec fn strip_prefix(path: Seq<char>, root: Seq<char>) -> Option<Seq<char>> {
    if root.len() == 0 {
        Some(path)
    } else if path == root {
        Some(Seq::<char>::empty())
    } else if !starts_with(path, root) {
        None
    } else if root.last() == '/' {
        Some(path.subrange(root.len() as int, path.len() as int))
    } else if path[root.len() as int] == '/' {
        Some(path.subrange(root.len() as int + 1, path.len() as int))
    } else {
        None
    }
}

/// The relative path `rel` placed under `root`.
pub open spec fn join_path(root: Seq<char>, rel: Seq<char>) -> Seq<char> {
    if rel.len() == 0 {
        root
    } else if root.len() == 0 {
        rel
    } else if root.last() == '/' {
        root + rel
    } else {
        root.push('/') + rel
    }
}

/// `path` without `suffix` at its end, once; `path` itself if it does not end so.
pub open spec fn without_suffix(path: Seq<char>, suffix: Seq<char>) -> Seq<char> {
    if ends_with(path, suffix) {
        path.subrange(0, path.len() - suffix.len())
    } else {
        path
    }
}

/// The segments rendered one by one, or the message of the first failure.
pub open spec fn render_all<E: TemplateRenderer>(
    engine: E,
    parts: Seq<Seq<char>>,
    context: Json,
) -> Result<Seq<Seq<char>>, Seq<char>>
    decreases parts.len(),
{
    if parts.len() == 0 {
        Ok(Seq::<Seq<char>>::empty())
    } else {
        match render_all(engine, parts.drop_last(), context) {
            Err(message) => Err(message),
            Ok(init) => match engine.rendered(parts.last(), context) {
                Ok(text) => Ok(init.push(text)),
                Err(message) => Err(message),
            },
        }
    }
}

/// Rendering keeps the number of segments.
pub proof fn lemma_render_all_len<E: TemplateRenderer>(
    engine: E,
    parts: Seq<Seq<char>>,
    context: Json,
)
    ensures
        render_all(engine, parts, context) is Ok ==> render_all(engine, parts, context)->Ok_0.len()
            == parts.len(),
    decreases parts.len(),
{
    if parts.len() > 0 {
        lemma_render_all_len(engine, parts.drop_last(), context);
    }
}

/// A failure among the first `n` segments is the failure of the whole path.
pub proof fn lemma_render_all_failure<E: TemplateRenderer>(
    engine: E,
    parts: Seq<Seq<char>>,
    context: Json,
    n: int,
)
    requires
        0 <= n <= parts.len(),
        render_all(engine, parts.subrange(0, n), context) is Err,
    ensures
        render_all(engine, parts, context) == render_all(engine, parts.subrange(0, n), context),
    decreases parts.len() - n,
{
    if n < parts.len() {
        assert(parts.subrange(0, n + 1).drop_last() =~= parts.subrange(0, n));
        lemma_render_all_failure(engine, parts, context, n + 1);
    } else {
        assert(parts.subrange(0, n) =~= parts);
    }
}


/// A rendered path holds, at each position, what the engine made of the
/// segment at that position.
pub proof fn lemma_render_all_index<E: TemplateRenderer>(
    engine: E,
    parts: Seq<Seq<char>>,
    context: Json,
    i: int,
)
    requires
        0 <= i < parts.len(),
        render_all(engine, parts, context) is Ok,
    ensures
        render_all(engine, parts, context)->Ok_0.len() == parts.len(),
        engine.rendered(parts[i], context) == Ok::<Seq<char>, Seq<char>>(
            render_all(engine, parts, context)->Ok_0[i],
        ),
    decreases parts.len(),
{
    lemma_render_all_len(engine, parts, context);
    lemma_render_all_len(engine, parts.drop_last(), context);
    if i < parts.len() - 1 {
        lemma_render_all_index(engine, parts.drop_last(), context, i);
    }
}

/// The file name of a path begins after the path's last separator.
pub proof fn lemma_file_name_after_separator(path: Seq<char>, p: int)
    requires
        0 <= p < path.len(),
        path[p] == '/',
    ensures
        file_name(path).len() <= path.len() - p - 1,
{
    lemma_ends_with_last_piece(path, '/');
    lemma_split_pieces_free(path, '/');
    let name = file_name(path);
    if name.len() > path.len() - p - 1 {
        let k = p - (path.len() - name.len());
        assert(path.subrange(path.len() - name.len(), path.len() as int)[k] == path[p]);
        assert(has_char(split(path, '/')[split(path, '/').len() - 1], '/'));
    }
}

/// Moving a path whose file name ends with `suffix` from one root to another
/// gives a path that ends with `suffix`, unless the path is the root itself.
pub proof fn lemma_target_keeps_suffix(
    path: Seq<char>,
    root: Seq<char>,
    output: Seq<char>,
    suffix: Seq<char>,
)
    requires
        ends_with(file_name(path), suffix),
        strip_prefix(path, root) is Some,
        path != root,
    ensures
        ends_with(join_path(output, strip_prefix(path, root)->Some_0), suffix),
{
    lemma_ends_with_last_piece(path, '/');
    let name = file_name(path);
    let rel = strip_prefix(path, root)->Some_0;
    if root.len() > 0 {
        assert(starts_with(path, root));
        assert(path.len() > root.len()) by {
            if path.len() == root.len() {
                assert(path.subrange(0, root.len() as int) =~= path);
            }
        }
        assert(path.subrange(0, root.len() as int) == root);
        if root.last() == '/' {
            assert(path.subrange(0, root.len() as int)[root.len() - 1] == '/');
            lemma_file_name_after_separator(path, root.len() - 1);
        } else {
            lemma_file_name_after_separator(path, root.len() as int);
        }
    }
    let cut = path.len() - rel.len();
    assert(rel =~= path.subrange(cut, path.len() as int));
    assert(name.len() <= rel.len());
    assert(name == path.subrange(path.len() - name.len(), path.len() as int));
    assert(suffix == name.subrange(name.len() - suffix.len(), name.len() as int));
    assert(rel.subrange(rel.len() - suffix.len(), rel.len() as int) =~= suffix);
    let target = join_path(output, rel);
    if rel.len() > 0 {
        assert(target.subrange(target.len() - rel.len(), target.len() as int) =~= rel);
        assert(target.subrange(target.len() - suffix.len(), target.len() as int) =~= suffix);
    } else {
        assert(target.subrange(target.len() - suffix.len(), target.len() as int) =~= suffix);
    }
}

/// `path` relative to `root`, as [`strip_prefix`] defines it.
pub fn strip_root(path: &str, root: &str) -> (r: Option<String>)
    ensures
        match r {
            Some(rel) => strip_prefix(path@, root@) == Some(rel@),
            None => strip_prefix(path@, root@).is_none(),
        },
{
    let p = chars_of(path);
    let r = chars_of(root);
    if r.len() == 0 {
        return Some(path.to_owned());
    }
    if text_eq(path, root) {
        return Some(String::new());
    }
    if !text_starts_with(path, root) {
        return None;
    }
    assert(p.len() > r.len()) by {
        if p.len() == r.len() {
            assert(path@.subrange(0, root@.len() as int) =~= path@);
        }
    }
    if r[r.len() - 1] == '/' {
        Some(path.substring_char(r.len(), p.len()).to_owned())
    } else if p[r.len()] == '/' {
        Some(path.substring_char(r.len() + 1, p.len()).to_owned())
    } else {
        None
    }
}

/// `rel` placed under `root`, as [`join_path`] defines it.
pub fn join_under(root: &str, rel: &str) -> (r: String)
    ensures
        r@ == join_path(root@, rel@),
{
    let root_chars = chars_of(root);
    if rel.unicode_len() == 0 {
        root.to_owned()
    } else if root_chars.len() == 0 {
        rel.to_owned()
    } else if root_chars[root_chars.len() - 1] == '/' {
        concat(root, rel)
    } else {
        let mut r = root.to_owned();
        push_char(&mut r, '/');
        r.append(rel);
        r
    }
}

/// Whether no segment that holds something was rendered to nothing.
pub fn parts_are_valid(template_parts: &Vec<String>, rendered_parts: &Vec<String>) -> (r: bool)
    ensures
        r == parts_valid(views(template_parts@), views(rendered_parts@)),
{
    let mut i: usize = 0;
    while i < template_parts.len() && i < rendered_parts.len()
        invariant
            forall|k: int|
                #![trigger views(template_parts@)[k]]
                0 <= k < i ==> !(views(template_parts@)[k].len() > 0 && views(
                    rendered_parts@,
                )[k].len() == 0),
            i <= template_parts.len(),
            i <= rendered_parts.len(),
        decreases template_parts.len() - i,
    {
        if template_parts[i].as_str().unicode_len() > 0 && rendered_parts[i].as_str().unicode_len()
            == 0 {
            assert(views(template_parts@)[i as int].len() > 0);
            assert(views(rendered_parts@)[i as int].len() == 0);
            return false;
        }
        i = i + 1;
    }
    true
}

/// Decides what happens to the entries of one template tree.
pub struct TemplateProcessor<'a, E: TemplateRenderer> {
    engine: &'a E,
    bakerignore: &'a IgnoreMatcher,
    template_root: String,
    output_root: String,
    answers: &'a Value,
    template_suffix: String,
}

/// What is settled about an entry before the output tree is looked at.
#[derive(Debug)]
pub enum EntryPlan {
    /// The ignore patterns match the entry.
    Ignore { source: String },
    /// The entry is a directory.
    CreateDirectory { target: String },
    /// The entry is a file that goes over as it is.
    Copy { source: String, target: String },
    /// The entry is a template file: its content has to be read and rendered.
    Render { source: String, target: String },
}

/// An [`EntryPlan`] with its paths as sequences of characters.
pub enum PlanView {
    Ignore { source: Seq<char> },
    CreateDirectory { target: Seq<char> },
    Copy { source: Seq<char>, target: Seq<char> },
    Render { source: Seq<char>, target: Seq<char> },
}

impl View for EntryPlan {
    type V = PlanView;

    open spec fn view(&self) -> PlanView {
        match self {
            EntryPlan::Ignore { source } => PlanView::Ignore { source: source@ },
            EntryPlan::CreateDirectory { target } => PlanView::CreateDirectory { target: target@ },
            EntryPlan::Copy { source, target } => PlanView::Copy {
                source: source@,
                target: target@,
            },
            EntryPlan::Render { source, target } => PlanView::Render {
                source: source@,
                target: target@,
            },
        }
    }
}

impl<'a, E: TemplateRenderer> TemplateProcessor<'a, E> {
    /// The engine that renders paths and contents.
    pub closed spec fn engine(&self) -> E {
        *self.engine
    }

    /// The ignore matcher.
    pub closed spec fn matcher(&self) -> IgnoreMatcher {
        *self.bakerignore
    }

    /// The template root.
    pub closed spec fn root(&self) -> Seq<char> {
        self.template_root@
    }

    /// The output root.
    pub closed spec fn output(&self) -> Seq<char> {
        self.output_root@
    }

    /// The answer context.
    pub closed spec fn context(&self) -> Json {
        self.answers.model()
    }

    /// The template-file suffix.
    pub closed spec fn suffix(&self) -> Seq<char> {
        self.template_suffix@
    }

    /// A processor for the tree under `template_root`, to be materialized
    /// under `output_root` with `answers`.
    pub fn new(
        engine: &'a E,
        template_root: &str,
        output_root: &str,
        answers: &'a Value,
        bakerignore: &'a IgnoreMatcher,
        template_suffix: &str,
    ) -> (r: Self)
        ensures
            r.engine() == *engine,
            r.matcher() == *bakerignore,
            r.root() == template_root@,
            r.output() == output_root@,
            r.context() == answers.model(),
            r.suffix() == template_suffix@,
    {
        TemplateProcessor {
            engine,
            bakerignore,
            template_root: template_root.to_owned(),
            output_root: output_root.to_owned(),
            answers,
            template_suffix: template_suffix.to_owned(),
        }
    }

    /// The entry's path relative to the template root: what the ignore patterns
    /// are matched against. A path outside the root stands for itself.
    pub open spec fn relative_source(&self, entry: Seq<char>) -> Seq<char> {
        match strip_prefix(entry, self.root()) {
            Some(rel) => rel,
            None => entry,
        }
    }

    /// Whether the file name of `path` ends with the template suffix.
    pub open spec fn names_template(&self, path: Seq<char>) -> bool {
        ends_with(file_name(path), self.suffix())
    }

    /// Whether the file name of `path` is the template suffix and nothing
    /// else: with the suffix taken off, no name would be left.
    pub open spec fn names_suffix_alone(&self, path: Seq<char>) -> bool {
        file_name(path) == self.suffix()
    }

    /// The entry's path with every segment rendered, or why there is none.
    pub open spec fn rendered_entry(&self, entry: Seq<char>) -> Result<Seq<char>, ErrorView> {
        match render_all(self.engine(), split(entry, '/'), self.context()) {
            Err(message) => Err(ErrorView::MinijinjaError(message)),
            Ok(parts) => if parts_valid(split(entry, '/'), parts) {
                Ok(join(parts, '/'))
            } else {
                Err(
                    ErrorView::ProcessError {
                        source_path: join(parts, '/'),
                        e: "The rendered path is not valid"@,
                    },
                )
            },
        }
    }

    /// The rendered path moved from the template root to the output root.
    pub open spec fn target_path(&self, rendered: Seq<char>, entry: Seq<char>) -> Result<
        Seq<char>,
        ErrorView,
    > {
        match strip_prefix(rendered, self.root()) {
            Some(rel) => Ok(join_path(self.output(), rel)),
            None => Err(ErrorView::ProcessError { source_path: entry, e: "prefix not found"@ }),
        }
    }

    /// What [`TemplateProcessor::plan`] settles for an entry.
    pub open spec fn planned(&self, entry: Seq<char>, is_file: bool) -> Result<PlanView, ErrorView> {
        if self.matcher().matches(self.relative_source(entry)) {
            Ok(PlanView::Ignore { source: entry })
        } else {
            match self.rendered_entry(entry) {
                Err(e) => Err(e),
                Ok(rendered) => match self.target_path(rendered, entry) {
                    Err(e) => Err(e),
                    Ok(target) => if !is_file {
                        Ok(PlanView::CreateDirectory { target })
                    } else if self.names_suffix_alone(rendered) {
                        Err(
                            ErrorView::ProcessError {
                                source_path: rendered,
                                e: "The rendered path is not valid"@,
                            },
                        )
                    } else if self.names_template(rendered) {
                        Ok(
                            PlanView::Render {
                                source: entry,
                                target: without_suffix(target, self.suffix()),
                            },
                        )
                    } else {
                        Ok(PlanView::Copy { source: entry, target })
                    },
                },
            }
        }
    }

    /// The operation that a plan becomes once it is known whether the target
    /// exists and, for a template file, what the file holds.
    pub open spec fn completed(
        &self,
        plan: PlanView,
        target_exists: bool,
        content: Seq<char>,
    ) -> Result<OperationView, ErrorView> {
        match plan {
            PlanView::Ignore { source } => Ok(OperationView::Ignore { source }),
            PlanView::CreateDirectory { target } => Ok(
                OperationView::CreateDirectory { target, target_exists },
            ),
            PlanView::Copy { source, target } => Ok(
                OperationView::Copy { source, target, target_exists },
            ),
            PlanView::Render { source, target } => match self.engine().rendered(
                content,
                self.context(),
            ) {
                Ok(text) => Ok(OperationView::Write { target, content: text, target_exists }),
                Err(message) => Err(ErrorView::MinijinjaError(message)),
            },
        }
    }

    /// The decision on an entry, from its path and the three facts about it.
    pub open spec fn decided(
        &self,
        entry: Seq<char>,
        is_file: bool,
        target_exists: bool,
        content: Seq<char>,
    ) -> Result<OperationView, ErrorView> {
        match self.planned(entry, is_file) {
            Err(e) => Err(e),
            Ok(plan) => self.completed(plan, target_exists, content),
        }
    }

    /// Validates whether the rendered path is properly rendered by comparing
    /// its segments with those of the template path: no segment that holds
    /// something may be empty after rendering.
    pub fn has_valid_rendered_path_parts(&self, template_path: &str, rendered_path: &str) -> (r:
        bool)
        ensures
            r == parts_valid(split(template_path@, '/'), split(rendered_path@, '/')),
    {
        let template_parts = split_text(template_path, SEPARATOR);
        let rendered_parts = split_text(rendered_path, SEPARATOR);
        parts_are_valid(&template_parts, &rendered_parts)
    }

    /// Checks if the path names a template file: one whose file name ends with
    /// the template suffix.
    pub fn is_template_file(&self, path: &str) -> (r: bool)
        ensures
            r == self.names_template(path@),
    {
        let parts = split_text(path, SEPARATOR);
        proof {
            lemma_split_nonempty(path@, '/');
        }
        let last = &parts[parts.len() - 1];
        text_ends_with(last.as_str(), self.template_suffix.as_str())
    }

    /// Checks if the file name of the path is the template suffix alone.
    pub fn is_suffix_alone(&self, path: &str) -> (r: bool)
        ensures
            r == self.names_suffix_alone(path@),
    {
        let parts = split_text(path, SEPARATOR);
        proof {
            lemma_split_nonempty(path@, '/');
        }
        let last = &parts[parts.len() - 1];
        text_eq(last.as_str(), self.template_suffix.as_str())
    }

    /// Renders each of the given segments.
    fn render_parts(&self, parts: &Vec<String>) -> (r: Result<Vec<String>, Error>)
        ensures
            match render_all(self.engine(), views(parts@), self.context()) {
                Ok(rendered) => r is Ok && views(r->Ok_0@) == rendered,
                Err(message) => r is Err && r->Err_0@ == ErrorView::MinijinjaError(message),
            },
    {
        let mut out: Vec<String> = Vec::new();
        let mut i: usize = 0;
        let ghost all = views(parts@);
        assert(all.subrange(0, 0) =~= Seq::<Seq<char>>::empty());
        assert(views(out@) =~= Seq::<Seq<char>>::empty());
        while i < parts.len()
            invariant
                i <= parts.len(),
                all == views(parts@),
                render_all(self.engine(), all.subrange(0, i as int), self.context()) == Ok::<
                    Seq<Seq<char>>,
                    Seq<char>,
                >(views(out@)),
            decreases parts.len() - i,
        {
            let ghost before = views(out@);
            assert(all.subrange(0, i + 1).drop_last() =~= all.subrange(0, i as int));
            assert(all.subrange(0, i + 1).last() == parts@[i as int]@);
            match self.engine.render(parts[i].as_str(), self.answers) {
                Ok(text) => {
                    out.push(text);
                    assert(views(out@) =~= before.push(text@));
                },
                Err(e) => {
                    proof {
                        lemma_render_all_failure(self.engine(), all, self.context(), i + 1);
                    }
                    return Err(e);
                },
            }
            i = i + 1;
        }
        assert(all.subrange(0, i as int) =~= all);
        Ok(out)
    }

    /// Renders a template entry path, segment by segment, and checks that no
    /// segment collapsed to nothing.
    pub fn render_template_entry(&self, template_entry: &str) -> (r: Result<String, Error>)
        ensures
            result_view(r) == self.rendered_entry(template_entry@),
    {
        let parts = split_text(template_entry, SEPARATOR);
        let rendered_parts = match self.render_parts(&parts) {
            Ok(rendered_parts) => rendered_parts,
            Err(e) => {
                return Err(e);
            },
        };
        let rendered_entry = join_text(&rendered_parts, SEPARATOR);
        if !parts_are_valid(&parts, &rendered_parts) {
            return Err(
                Error::ProcessError {
                    source_path: rendered_entry,
                    e: "The rendered path is not valid".to_owned(),
                },
            );
        }
        Ok(rendered_entry)
    }

    /// Removes the template suffix from a path that ends with it.
    pub fn remove_template_suffix(&self, target_path: &str) -> (r: String)
        ensures
            r@ == without_suffix(target_path@, self.suffix()),
    {
        if text_ends_with(target_path, self.template_suffix.as_str()) {
            let n = target_path.unicode_len();
            let m = self.template_suffix.as_str().unicode_len();
            target_path.substring_char(0, n - m).to_owned()
        } else {
            target_path.to_owned()
        }
    }

    /// Constructs the target path for a rendered entry: the template root at
    /// its front gives way to the output root.
    pub fn get_target_path(&self, rendered_entry: &str, template_entry: &str) -> (r: Result<
        String,
        Error,
    >)
        ensures
            result_view(r) == self.target_path(rendered_entry@, template_entry@),
    {
        match strip_root(rendered_entry, self.template_root.as_str()) {
            Some(rel) => Ok(join_under(self.output_root.as_str(), rel.as_str())),
            None => Err(
                Error::ProcessError {
                    source_path: template_entry.to_owned(),
                    e: "prefix not found".to_owned(),
                },
            ),
        }
    }

    /// Settles what can be settled about an entry from its path and its kind:
    /// whether it is ignored, where it goes, and whether its content has to be
    /// rendered. A file whose rendered name is the template suffix alone would
    /// be written under an empty name: its path is not valid.
    pub fn plan(&self, template_entry: &str, is_file: bool) -> (r: Result<EntryPlan, Error>)
        ensures
            result_view(r) == self.planned(template_entry@, is_file),
    {
        let relative = match strip_root(template_entry, self.template_root.as_str()) {
            Some(rel) => rel,
            None => template_entry.to_owned(),
        };
        if self.bakerignore.is_match(relative.as_str()) {
            return Ok(EntryPlan::Ignore { source: template_entry.to_owned() });
        }
        let rendered_entry = match self.render_template_entry(template_entry) {
            Ok(rendered_entry) => rendered_entry,
            Err(e) => {
                return Err(e);
            },
        };
        let target_path = match self.get_target_path(rendered_entry.as_str(), template_entry) {
            Ok(target_path) => target_path,
            Err(e) => {
                return Err(e);
            },
        };
        if !is_file {
            Ok(EntryPlan::CreateDirectory { target: target_path })
        } else if self.is_suffix_alone(rendered_entry.as_str()) {
            Err(
                Error::ProcessError {
                    source_path: rendered_entry,
                    e: "The rendered path is not valid".to_owned(),
                },
            )
        } else if self.is_template_file(rendered_entry.as_str()) {
            Ok(
                EntryPlan::Render {
                    source: template_entry.to_owned(),
                    target: self.remove_template_suffix(target_path.as_str()),
                },
            )
        } else {
            Ok(EntryPlan::Copy { source: template_entry.to_owned(), target: target_path })
        }
    }

    /// Turns a plan into the operation to perform. `target_exists` says whether
    /// the plan's target is there already; `template_content` is what the
    /// source file holds, read only for [`EntryPlan::Render`].
    pub fn complete(&self, plan: EntryPlan, target_exists: bool, template_content: &str) -> (r:
        Result<TemplateOperation, Error>)
        ensures
            result_view(r) == self.completed(plan@, target_exists, template_content@),
    {
        match plan {
            EntryPlan::Ignore { source } => Ok(TemplateOperation::Ignore { source }),
            EntryPlan::CreateDirectory { target } => Ok(
                TemplateOperation::CreateDirectory { target, target_exists },
            ),
            EntryPlan::Copy { source, target } => Ok(
                TemplateOperation::Copy { source, target, target_exists },
            ),
            EntryPlan::Render { source, target } => {
                match self.engine.render(template_content, self.answers) {
                    Ok(content) => Ok(TemplateOperation::Write { target, content, target_exists }),
                    Err(e) => Err(e),
                }
            },
        }
    }

    /// Processes a template entry and determines the appropriate operation,
    /// from its path and the facts about it: whether it is a file, whether its
    /// target exists, and what it holds.
    pub fn process(
        &self,
        template_entry: &str,
        is_file: bool,
        target_exists: bool,
        template_content: &str,
    ) -> (r: Result<TemplateOperation, Error>)
        ensures
            result_view(r) == self.decided(
                template_entry@,
                is_file,
                target_exists,
                template_content@,
            ),
    {
        match self.plan(template_entry, is_file) {
            Ok(plan) => self.complete(plan, target_exists, template_content),
            Err(e) => Err(e),
        }
    }
}

/// Path-collapse safety. An entry that is not ignored and has a segment which
/// holds something and which the engine renders to nothing gets no plan and no
/// operation: the decision is an error, whatever the facts about the entry.
pub proof fn lemma_collapsed_segment_is_rejected<'a, E: TemplateRenderer>(
    processor: TemplateProcessor<'a, E>,
    entry: Seq<char>,
    i: int,
    is_file: bool,
    target_exists: bool,
    content: Seq<char>,
)
    requires
        !processor.matcher().matches(processor.relative_source(entry)),
        0 <= i < split(entry, '/').len(),
        split(entry, '/')[i].len() > 0,
        processor.engine().rendered(split(entry, '/')[i], processor.context()) == Ok::<
            Seq<char>,
            Seq<char>,
        >(Seq::<char>::empty()),
    ensures
        processor.rendered_entry(entry) is Err,
        processor.planned(entry, is_file) is Err,
        processor.decided(entry, is_file, target_exists, content) is Err,
{
    let parts = split(entry, '/');
    let rendered = render_all(processor.engine(), parts, processor.context());
    if rendered is Ok {
        lemma_render_all_index(processor.engine(), parts, processor.context(), i);
        assert(rendered->Ok_0[i].len() == 0);
        assert(!parts_valid(parts, rendered->Ok_0));
    }
}

/// Whenever a rendered path is accepted, it is the rendered segments joined by
/// the separator, one for each segment of the entry, and every segment that
/// held something still holds something.
pub proof fn lemma_accepted_path_has_no_collapsed_segment<'a, E: TemplateRenderer>(
    processor: TemplateProcessor<'a, E>,
    entry: Seq<char>,
)
    requires
        processor.rendered_entry(entry) is Ok,
    ensures
        ({
            let parts = render_all(processor.engine(), split(entry, '/'), processor.context());
            &&& parts is Ok
            &&& parts->Ok_0.len() == split(entry, '/').len()
            &&& processor.rendered_entry(entry)->Ok_0 == join(parts->Ok_0, '/')
            &&& forall|i: int|
                0 <= i < split(entry, '/').len() && split(entry, '/')[i].len() > 0
                    ==> (#[trigger] parts->Ok_0[i]).len() > 0
        }),
{
    let segments = split(entry, '/');
    lemma_render_all_len(processor.engine(), segments, processor.context());
    let parts = render_all(processor.engine(), segments, processor.context())->Ok_0;
    assert(parts_valid(segments, parts));
    assert forall|i: int| 0 <= i < segments.len() && segments[i].len() > 0 implies (
    #[trigger] parts[i]).len() > 0 by {
        assert(!(segments[i].len() > 0 && parts[i].len() == 0));
    }
}

/// Suffix stripping. A file that is not ignored and whose rendered name ends
/// with the template suffix is planned for rendering, never for copying; its
/// target is the re-rooted rendered path with the suffix taken off once, so
/// that target and suffix together give that path again. If a decision is
/// made, it is a write to that target. Left out are the template root itself
/// and a name that is the suffix alone, which is rejected.
pub proof fn lemma_template_file_is_written_without_suffix<'a, E: TemplateRenderer>(
    processor: TemplateProcessor<'a, E>,
    entry: Seq<char>,
    target_exists: bool,
    content: Seq<char>,
)
    requires
        !processor.matcher().matches(processor.relative_source(entry)),
        processor.rendered_entry(entry) is Ok,
        processor.names_template(processor.rendered_entry(entry)->Ok_0),
        !processor.names_suffix_alone(processor.rendered_entry(entry)->Ok_0),
        processor.target_path(processor.rendered_entry(entry)->Ok_0, entry) is Ok,
        processor.rendered_entry(entry)->Ok_0 != processor.root(),
    ensures
        ({
            let moved = processor.target_path(processor.rendered_entry(entry)->Ok_0, entry)->Ok_0;
            let target = without_suffix(moved, processor.suffix());
            &&& processor.planned(entry, true) == Ok::<PlanView, ErrorView>(
                PlanView::Render { source: entry, target },
            )
            &&& target + processor.suffix() == moved
            &&& match processor.decided(entry, true, target_exists, content) {
                Ok(operation) => operation is Write && operation->Write_target == target,
                Err(_) => true,
            }
        }),
{
    let rendered = processor.rendered_entry(entry)->Ok_0;
    lemma_target_keeps_suffix(rendered, processor.root(), processor.output(), processor.suffix());
    let moved = processor.target_path(rendered, entry)->Ok_0;
    let target = without_suffix(moved, processor.suffix());
    assert(target + processor.suffix() =~= moved);
}

} // verus!
