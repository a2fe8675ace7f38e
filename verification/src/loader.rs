//! Where a template comes from: a local directory or a git repository.
use vstd::prelude::*;
use vstd::string::*;

use crate::error::{result_view, Error, ErrorView};
use crate::prompt::{confirm, flag_reply, ConfirmationPrompter, ConfirmationView};
use crate::template::processor::file_name;
use crate::text::{
    concat, ends_with, lemma_split_nonempty, split_text, starts_with, text_ends_with, text_eq,
    text_starts_with,
};

verus! {

/// The scheme of the absolute URL that `url::Url::parse` reads from `input`,
/// if it reads one.
pub uninterp spec fn url_scheme(input: Seq<char>) -> Option<Seq<char>>;

/// `url::Url::parse`, then `url::Url::scheme` of what it gave.
#[verifier::external_body]
fn parse_scheme(input: &str) -> (r: Option<String>)
    ensures
        match r {
            Some(scheme) => url_scheme(input@) == Some(scheme@),
            None => url_scheme(input@) is None,
        },
{
    url::Url::parse(input).ok().map(|parsed| parsed.scheme().to_string())
}

/// Represents the source location of a template.
#[derive(Debug)]
pub enum TemplateSource {
    /// Local filesystem template path.
    FileSystem(String),
    /// Git repository URL (HTTPS or SSH).
    Git(String),
}

/// A [`TemplateSource`] with its text as a sequence of characters.
pub enum TemplateSourceView {
    FileSystem(Seq<char>),
    Git(Seq<char>),
}

impl View for TemplateSource {
    type V = TemplateSourceView;

    open spec fn view(&self) -> TemplateSourceView {
        match self {
            TemplateSource::FileSystem(path) => TemplateSourceView::FileSystem(path@),
            TemplateSource::Git(repo) => TemplateSourceView::Git(repo@),
        }
    }
}

/// Whether a source with this text and this URL scheme is a git repository:
/// its scheme is `https` or `git`, or it is written the SSH way.
pub open spec fn names_repository(s: Seq<char>, scheme: Option<Seq<char>>) -> bool {
    scheme == Some("https"@) || scheme == Some("git"@) || starts_with(s, "git@"@)
}

/// The source that the text `s` names, given its URL scheme.
pub open spec fn classified(s: Seq<char>, scheme: Option<Seq<char>>) -> TemplateSourceView {
    if names_repository(s, scheme) {
        TemplateSourceView::Git(s)
    } else {
        TemplateSourceView::FileSystem(s)
    }
}

/// What ends the name of a repository.
pub open spec fn git_ending() -> Seq<char> {
    seq!['.', 'g', 'i', 't']
}

/// `s` without any `.git` at its end, however often it stands there.
pub open spec fn without_git_endings(s: Seq<char>) -> Seq<char>
    decreases s.len(),
{
    if ends_with(s, git_ending()) {
        without_git_endings(s.subrange(0, s.len() - 4))
    } else {
        s
    }
}

/// The directory that a repository is cloned to: the last segment of its URL
/// without `.git` at the end.
pub open spec fn repository_name(repo: Seq<char>) -> Seq<char> {
    without_git_endings(file_name(repo))
}

impl TemplateSource {
    /// How the source is described to the user.
    pub open spec fn description(&self) -> Seq<char> {
        match self {
            TemplateSource::FileSystem(path) => "local path: '"@ + path@ + "'"@,
            TemplateSource::Git(repo) => "git repository: '"@ + repo@ + "'"@,
        }
    }

    /// The description of the source, as text.
    pub fn to_string(&self) -> (r: String)
        ensures
            r@ == self.description(),
    {
        match self {
            TemplateSource::FileSystem(path) => {
                let mut r = concat("local path: '", path.as_str());
                r.append("'");
                r
            },
            TemplateSource::Git(repo) => {
                let mut r = concat("git repository: '", repo.as_str());
                r.append("'");
                r
            },
        }
    }

    /// The source that `s` names, given the scheme that a URL parser found in it.
    pub fn classify(s: &str, scheme: Option<&str>) -> (r: TemplateSource)
        ensures
            r@ == classified(
                s@,
                match scheme {
                    Some(text) => Some(text@),
                    None => None,
                },
            ),
    {
        let by_scheme = match scheme {
            Some(text) => text_eq(text, "https") || text_eq(text, "git"),
            None => false,
        };
        if by_scheme || text_starts_with(s, "git@") {
            TemplateSource::Git(s.to_owned())
        } else {
            TemplateSource::FileSystem(s.to_owned())
        }
    }

    /// Creates a TemplateSource from a string path or URL.
    pub fn from_string(s: &str) -> (r: Option<TemplateSource>)
        ensures
            r is Some,
            r->Some_0@ == classified(s@, url_scheme(s@)),
    {
        let scheme = parse_scheme(s);
        let source = match &scheme {
            Some(text) => TemplateSource::classify(s, Some(text.as_str())),
            None => TemplateSource::classify(s, None),
        };
        Some(source)
    }
}

/// Loader for templates from the local filesystem.
pub struct LocalLoader {
    path: String,
}

impl LocalLoader {
    /// The path that the loader was made for.
    pub closed spec fn location(&self) -> Seq<char> {
        self.path@
    }

    /// Creates a new LocalLoader instance.
    pub fn new(path: String) -> (r: Self)
        ensures
            r.location() == path@,
    {
        LocalLoader { path }
    }

    /// The template directory, given whether the path exists: the path where
    /// it does, else the error that says it does not.
    pub fn load(&self, path_exists: bool) -> (r: Result<String, Error>)
        ensures
            result_view(r) == if path_exists {
                Ok::<Seq<char>, ErrorView>(self.location())
            } else {
                Err::<Seq<char>, ErrorView>(
                    ErrorView::TemplateDoesNotExistsError { template_dir: self.location() },
                )
            },
    {
        if !path_exists {
            return Err(Error::TemplateDoesNotExistsError { template_dir: self.path.clone() });
        }
        Ok(self.path.clone())
    }
}

/// What to do to have the repository in its directory.
#[derive(Debug, Clone, Copy, PartialEq, Eq, Structural)]
pub enum CloneStep {
    /// The directory is there and stays: nothing is cloned.
    UseExisting,
    /// The directory is there and goes; then the repository is cloned.
    ReplaceAndClone,
    /// The directory is not there: the repository is cloned.
    Clone,
}

/// The step to take, given whether the directory exists and whether replacing
/// it was agreed to.
pub open spec fn clone_step(clone_path_exists: bool, replace: bool) -> CloneStep {
    if !clone_path_exists {
        CloneStep::Clone
    } else if replace {
        CloneStep::ReplaceAndClone
    } else {
        CloneStep::UseExisting
    }
}

/// The question put to the user before the directory `name` is replaced.
pub open spec fn replace_question(name: Seq<char>) -> Seq<char> {
    "Directory '"@ + name + "' already exists. Replace it?"@
}

/// The plan once the prompter has handed back `reply` to the question whether
/// to replace the existing directory: the step for the answer, or the failure
/// of the prompt.
pub open spec fn step_of_reply(reply: Result<bool, ErrorView>) -> Result<CloneStep, ErrorView> {
    match reply {
        Ok(replace) => Ok(clone_step(true, replace)),
        Err(e) => Err(e),
    }
}

impl View for CloneStep {
    type V = CloneStep;

    open spec fn view(&self) -> CloneStep {
        *self
    }
}

/// Loader for templates from git repositories.
pub struct GitLoader {
    repo: String,
    skip_overwrite_check: bool,
}

impl GitLoader {
    /// The URL of the repository.
    pub closed spec fn repository(&self) -> Seq<char> {
        self.repo@
    }

    /// Whether an existing directory is replaced without asking.
    pub closed spec fn replaces_unasked(&self) -> bool {
        self.skip_overwrite_check
    }

    /// Creates a new GitLoader instance.
    pub fn new(repo: String, skip_overwrite_check: bool) -> (r: Self)
        ensures
            r.repository() == repo@,
            r.replaces_unasked() == skip_overwrite_check,
    {
        GitLoader { repo, skip_overwrite_check }
    }

    /// The directory that the repository is cloned to.
    pub fn clone_path(&self) -> (r: String)
        ensures
            r@ == repository_name(self.repository()),
    {
        let parts = split_text(self.repo.as_str(), '/');
        proof {
            lemma_split_nonempty(self.repo@, '/');
            reveal_strlit(".git");
            assert(".git"@ =~= git_ending());
        }
        let mut name = parts[parts.len() - 1].clone();
        let ghost start = name@;
        while text_ends_with(name.as_str(), ".git")
            invariant
                ".git"@ == git_ending(),
                without_git_endings(name@) == without_git_endings(start),
            decreases name@.len(),
        {
            let n = name.as_str().unicode_len();
            name = name.as_str().substring_char(0, n - 4).to_owned();
        }
        name
    }

    /// The step to take, given whether the directory exists. Without a
    /// directory the repository is cloned; where replacing unasked was chosen,
    /// an existing directory is replaced. Else the user is asked whether to
    /// replace it, and what the prompter hands back decides: yes replaces, no
    /// keeps what is there, and a prompt that fails is the failure of the plan.
    pub fn plan<P: ConfirmationPrompter>(&self, prompter: &P, clone_path_exists: bool) -> (r:
        Result<CloneStep, Error>)
        ensures
            !clone_path_exists ==> r == Ok::<CloneStep, Error>(CloneStep::Clone),
            clone_path_exists && self.replaces_unasked() ==> r == Ok::<CloneStep, Error>(
                CloneStep::ReplaceAndClone,
            ),
            clone_path_exists && !self.replaces_unasked() ==> exists|
                reply: Result<bool, ErrorView>,
            |
                #[trigger] prompter.confirmed(
                    (ConfirmationView {
                        prompt: replace_question(repository_name(self.repository())),
                        default: false,
                    }),
                    reply,
                ) && result_view(r) == step_of_reply(reply),
    {
        if !clone_path_exists {
            return Ok(CloneStep::Clone);
        }
        let name = self.clone_path();
        let mut question = concat("Directory '", name.as_str());
        question.append("' already exists. Replace it?");
        let reply = confirm(prompter, self.skip_overwrite_check, question);
        let ghost handed_back = flag_reply(reply);
        let r = match reply {
            Ok(replace) => Ok(decide_clone_step(clone_path_exists, replace)),
            Err(e) => Err(e),
        };
        proof {
            if !self.replaces_unasked() {
                assert(prompter.confirmed(
                    (ConfirmationView {
                        prompt: replace_question(repository_name(self.repository())),
                        default: false,
                    }),
                    handed_back,
                ));
                assert(result_view(r) == step_of_reply(handed_back));
            }
        }
        r
    }
}

/// The step to take, as [`clone_step`] defines it.
pub fn decide_clone_step(clone_path_exists: bool, replace: bool) -> (r: CloneStep)
    ensures
        r == clone_step(clone_path_exists, replace),
{
    if !clone_path_exists {
        CloneStep::Clone
    } else if replace {
        CloneStep::ReplaceAndClone
    } else {
        CloneStep::UseExisting
    }
}

} // verus!
