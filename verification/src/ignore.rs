//! Which template entries stay out of the output: built-in patterns that always
//! apply, and the patterns of the template's ignore file.
use vstd::prelude::*;
use vstd::string::*;

use crate::error::{Error, ErrorView};
use crate::text::{chars_of, split, split_text, views};

verus! {

/// `globset::GlobSet`: a set of compiled globs. Nothing of its inside is
/// known here; [`glob_set_patterns`] names what it was compiled from.
#[verifier::external_type_specification]
#[verifier::external_body]
pub struct ExGlobSet(globset::GlobSet);

/// `globset::GlobSetBuilder`: collects globs for a set. Nothing of its inside
/// is known here; [`builder_patterns`] names what was added to it.
#[verifier::external_type_specification]
#[verifier::external_body]
pub struct ExGlobSetBuilder(globset::GlobSetBuilder);

/// Whether the glob that `globset::Glob::new` compiles from `pattern` matches
/// `path`, on the platform that the crate is built for: how a backslash in a
/// pattern is read differs between platforms.
pub uninterp spec fn glob_matches(pattern: Seq<char>, path: Seq<char>) -> bool;

/// The patterns of the globs in a set, in the order they were added.
pub uninterp spec fn glob_set_patterns(set: globset::GlobSet) -> Seq<Seq<char>>;

/// The patterns of the globs added to a builder so far, in order.
pub uninterp spec fn builder_patterns(builder: globset::GlobSetBuilder) -> Seq<Seq<char>>;

/// The message of the error with which `globset::Glob::new` rejects
/// `pattern`; `None` where the pattern compiles.
pub uninterp spec fn glob_error(pattern: Seq<char>) -> Option<Seq<char>>;

/// The message of the error with which `globset::GlobSetBuilder::build` fails
/// for the globs compiled from `patterns`; `None` where it builds the set.
pub uninterp spec fn glob_set_error(patterns: Seq<Seq<char>>) -> Option<Seq<char>>;

/// Whether one of `patterns` matches `path`.
pub open spec fn any_matches(patterns: Seq<Seq<char>>, path: Seq<char>) -> bool {
    exists|i: int| 0 <= i < patterns.len() && glob_matches(#[trigger] patterns[i], path)
}

/// `globset::GlobSetBuilder::new`: a builder without globs.
#[verifier::external_body]
fn new_builder() -> (builder: globset::GlobSetBuilder)
    ensures
        builder_patterns(builder) == Seq::<Seq<char>>::empty(),
{
    globset::GlobSetBuilder::new()
}

/// `globset::Glob::new` on `pattern`, then `globset::GlobSetBuilder::add` of
/// the glob. Whether the pattern compiles is named by [`glob_error`]: where it
/// does, the builder gains the pattern at its end; where it does not, the
/// builder is as before and the error's text comes back.
#[verifier::external_body]
fn add_pattern(builder: &mut globset::GlobSetBuilder, pattern: &str) -> (r: Result<(), String>)
    ensures
        (r is Ok) == (glob_error(pattern@) is None),
        r is Err ==> glob_error(pattern@) == Some(r->Err_0@),
        r is Ok ==> builder_patterns(*final(builder)) == builder_patterns(*old(builder)).push(
            pattern@,
        ),
        r is Err ==> builder_patterns(*final(builder)) == builder_patterns(*old(builder)),
{
    let glob = globset::Glob::new(pattern).map_err(|e| e.to_string())?;
    builder.add(glob);
    Ok(())
}

/// `globset::GlobSetBuilder::build`: a set of the globs added to the builder,
/// or the text of the error. Whether it builds is named by [`glob_set_error`].
#[verifier::external_body]
fn build_set(builder: &globset::GlobSetBuilder) -> (r: Result<globset::GlobSet, String>)
    ensures
        (r is Ok) == (glob_set_error(builder_patterns(*builder)) is None),
        r is Err ==> glob_set_error(builder_patterns(*builder)) == Some(r->Err_0@),
        r is Ok ==> glob_set_patterns(r->Ok_0) == builder_patterns(*builder),
{
    builder.build().map_err(|e| e.to_string())
}

/// `globset::GlobSet::is_match`: whether any glob in the set matches the path.
#[verifier::external_body]
fn set_is_match(set: &globset::GlobSet, path: &str) -> (r: bool)
    ensures
        r == (exists|i: int|
            0 <= i < glob_set_patterns(*set).len() && glob_matches(
                #[trigger] glob_set_patterns(*set)[i],
                path@,
            )),
{
    set.is_match(path)
}

/// Baker's ignore file name.
pub const IGNORE_FILE: &'static str = ".bakerignore";

/// The patterns that always apply: version-control directories, OS metadata
/// files, and the template's own configuration, ignore and hook files.
pub open spec fn default_patterns() -> Seq<Seq<char>> {
    seq![
        ".git/**"@,
        ".git"@,
        ".hg/**"@,
        ".hg"@,
        ".svn/**"@,
        ".svn"@,
        "**/.DS_Store"@,
        ".bakerignore"@,
        "hooks"@,
        "hooks/**"@,
        "baker.yaml"@,
        "baker.yml"@,
        "baker.json"@,
    ]
}

/// The patterns of [`default_patterns`], as strings.
pub fn default_ignore_patterns() -> (r: Vec<String>)
    ensures
        views(r@) == default_patterns(),
{
    let mut r: Vec<String> = Vec::new();
    r.push(".git/**".to_owned());
    r.push(".git".to_owned());
    r.push(".hg/**".to_owned());
    r.push(".hg".to_owned());
    r.push(".svn/**".to_owned());
    r.push(".svn".to_owned());
    r.push("**/.DS_Store".to_owned());
    r.push(".bakerignore".to_owned());
    r.push("hooks".to_owned());
    r.push("hooks/**".to_owned());
    r.push("baker.yaml".to_owned());
    r.push("baker.yml".to_owned());
    r.push("baker.json".to_owned());
    assert(views(r@) =~= default_patterns());
    r
}

/// White space as std's `char::is_whitespace` has it.
pub open spec fn is_space(c: char) -> bool {
    ('\u{9}' <= c && c <= '\u{d}') || c == ' ' || c == '\u{85}' || c == '\u{a0}' || c
        == '\u{1680}' || ('\u{2000}' <= c && c <= '\u{200a}') || c == '\u{2028}' || c
        == '\u{2029}' || c == '\u{202f}' || c == '\u{205f}' || c == '\u{3000}'
}

/// The number of white-space characters at the start of `s`.
pub open spec fn leading_spaces(s: Seq<char>) -> nat
    decreases s.len(),
{
    if s.len() > 0 && is_space(s[0]) {
        1 + leading_spaces(s.drop_first())
    } else {
        0
    }
}

/// The number of white-space characters at the end of `s`.
pub open spec fn trailing_spaces(s: Seq<char>) -> nat
    decreases s.len(),
{
    if s.len() > 0 && is_space(s.last()) {
        1 + trailing_spaces(s.drop_last())
    } else {
        0
    }
}

/// `s` without the white space at its two ends.
pub open spec fn trimmed(s: Seq<char>) -> Seq<char> {
    let from = leading_spaces(s);
    if from == s.len() {
        Seq::<char>::empty()
    } else {
        s.subrange(from as int, s.len() - trailing_spaces(s))
    }
}

/// Whether a trimmed line of an ignore file is a pattern: not blank and no comment.
pub open spec fn is_pattern_line(line: Seq<char>) -> bool {
    line.len() > 0 && line[0] != '#'
}

/// The patterns among `lines`, trimmed, in order.
pub open spec fn patterns_of(lines: Seq<Seq<char>>) -> Seq<Seq<char>>
    decreases lines.len(),
{
    if lines.len() == 0 {
        Seq::<Seq<char>>::empty()
    } else {
        let init = patterns_of(lines.drop_last());
        let line = trimmed(lines.last());
        if is_pattern_line(line) {
            init.push(line)
        } else {
            init
        }
    }
}

/// The patterns that the content of an ignore file declares: one per line,
/// blank lines and lines that begin with `#` left out.
pub open spec fn user_patterns(content: Seq<char>) -> Seq<Seq<char>> {
    patterns_of(split(content, '\n'))
}

pub proof fn lemma_leading_spaces(s: Seq<char>, k: int)
    requires
        0 <= k <= s.len(),
        forall|i: int| 0 <= i < k ==> is_space(s[i]),
        k == s.len() || !is_space(s[k]),
    ensures
        leading_spaces(s) == k,
    decreases k,
{
    if k > 0 {
        let rest = s.drop_first();
        assert forall|i: int| 0 <= i < k - 1 implies is_space(rest[i]) by {
            assert(rest[i] == s[i + 1]);
        }
        if k < s.len() {
            assert(rest[k - 1] == s[k]);
        }
        lemma_leading_spaces(rest, k - 1);
    }
}

pub proof fn lemma_trailing_spaces(s: Seq<char>, k: int)
    requires
        0 <= k <= s.len(),
        forall|i: int| s.len() - k <= i < s.len() ==> is_space(s[i]),
        k == s.len() || !is_space(s[s.len() - k - 1]),
    ensures
        trailing_spaces(s) == k,
    decreases k,
{
    if k > 0 {
        let rest = s.drop_last();
        assert forall|i: int| rest.len() - (k - 1) <= i < rest.len() implies is_space(rest[i]) by {
            assert(rest[i] == s[i]);
        }
        if k < s.len() {
            assert(rest[rest.len() - (k - 1) - 1] == s[s.len() - k - 1]);
        }
        lemma_trailing_spaces(rest, k - 1);
    }
}

/// Whether `c` is white space.
pub fn is_whitespace(c: char) -> (r: bool)
    ensures
        r == is_space(c),
{
    ('\u{9}' <= c && c <= '\u{d}') || c == ' ' || c == '\u{85}' || c == '\u{a0}' || c
        == '\u{1680}' || ('\u{2000}' <= c && c <= '\u{200a}') || c == '\u{2028}' || c
        == '\u{2029}' || c == '\u{202f}' || c == '\u{205f}' || c == '\u{3000}'
}

/// `line` without the white space at its two ends.
pub fn trim_line(line: &str) -> (r: String)
    ensures
        r@ == trimmed(line@),
{
    let chars = chars_of(line);
    let n = chars.len();
    let mut from: usize = 0;
    while from < n && is_whitespace(chars[from])
        invariant
            chars@ == line@,
            n == chars.len(),
            from <= n,
            forall|i: int| 0 <= i < from ==> is_space(line@[i]),
        decreases n - from,
    {
        from = from + 1;
    }
    proof {
        lemma_leading_spaces(line@, from as int);
    }
    if from == n {
        return String::new();
    }
    let mut to: usize = n;
    while to > from + 1 && is_whitespace(chars[to - 1])
        invariant
            chars@ == line@,
            n == chars.len(),
            from < to <= n,
            !is_space(line@[from as int]),
            forall|i: int| to <= i < n ==> is_space(line@[i]),
        decreases to,
    {
        to = to - 1;
    }
    proof {
        lemma_trailing_spaces(line@, n - to);
    }
    line.substring_char(from, to).to_owned()
}

/// The patterns that the content of an ignore file declares.
pub fn parse_ignore_lines(content: &str) -> (r: Vec<String>)
    ensures
        views(r@) == user_patterns(content@),
{
    let lines = split_text(content, '\n');
    let mut out: Vec<String> = Vec::new();
    let mut i: usize = 0;
    assert(views(lines@).subrange(0, 0) =~= Seq::<Seq<char>>::empty());
    assert(views(out@) =~= Seq::<Seq<char>>::empty());
    while i < lines.len()
        invariant
            i <= lines.len(),
            views(out@) == patterns_of(views(lines@).subrange(0, i as int)),
        decreases lines.len() - i,
    {
        let line = trim_line(lines[i].as_str());
        let ghost before = views(out@);
        assert(views(lines@).subrange(0, i + 1).drop_last() =~= views(lines@).subrange(
            0,
            i as int,
        ));
        assert(views(lines@).subrange(0, i + 1).last() == lines@[i as int]@);
        if line.as_str().unicode_len() > 0 && line.as_str().get_char(0) != '#' {
            out.push(line);
            assert(views(out@) =~= before.push(trimmed(lines@[i as int]@)));
        }
        i = i + 1;
    }
    assert(views(lines@).subrange(0, i as int) =~= views(lines@));
    out
}

/// The compiled predicate over paths relative to the template root.
pub struct IgnoreMatcher {
    set: globset::GlobSet,
}

impl IgnoreMatcher {
    /// The patterns that the matcher was compiled from, in order.
    pub closed spec fn patterns(&self) -> Seq<Seq<char>> {
        glob_set_patterns(self.set)
    }

    /// Whether the matcher holds a pattern that matches `path`.
    pub open spec fn matches(&self, path: Seq<char>) -> bool {
        any_matches(self.patterns(), path)
    }

    /// Whether one of the matcher's patterns matches `path`.
    pub fn is_match(&self, path: &str) -> (r: bool)
        ensures
            r == self.matches(path@),
    {
        set_is_match(&self.set, path)
    }
}

/// All patterns that apply to a template whose ignore file holds `content`;
/// `None` stands for a template without an ignore file.
pub open spec fn all_patterns(content: Option<Seq<char>>) -> Seq<Seq<char>> {
    match content {
        Some(text) => default_patterns() + user_patterns(text),
        None => default_patterns(),
    }
}

/// What a default pattern matches, the patterns of any ignore file match too:
/// the defaults cannot be overridden.
pub proof fn lemma_defaults_prevail(content: Option<Seq<char>>, path: Seq<char>)
    requires
        any_matches(default_patterns(), path),
    ensures
        any_matches(all_patterns(content), path),
{
    let i = choose|i: int|
        0 <= i < default_patterns().len() && glob_matches(#[trigger] default_patterns()[i], path);
    assert(all_patterns(content)[i] == default_patterns()[i]);
}

/// What an ignore file holds, as a sequence of characters.
pub open spec fn content_view(content: Option<&str>) -> Option<Seq<char>> {
    match content {
        Some(text) => Some(text@),
        None => None,
    }
}

/// The message for the first of `patterns` that does not compile.
pub open spec fn first_glob_error(patterns: Seq<Seq<char>>) -> Option<Seq<char>>
    decreases patterns.len(),
{
    if patterns.len() == 0 {
        None
    } else {
        match first_glob_error(patterns.drop_last()) {
            Some(message) => Some(message),
            None => glob_error(patterns.last()),
        }
    }
}

/// Why `patterns` do not compile into a matcher: the message for the first
/// pattern that does not compile, else that of building the set. `None` where
/// they compile.
pub open spec fn matcher_error(patterns: Seq<Seq<char>>) -> Option<Seq<char>> {
    match first_glob_error(patterns) {
        Some(message) => Some(message),
        None => glob_set_error(patterns),
    }
}

/// No pattern fails exactly where each one compiles.
pub proof fn lemma_first_glob_error(patterns: Seq<Seq<char>>)
    ensures
        first_glob_error(patterns) is None <==> forall|i: int|
            0 <= i < patterns.len() ==> glob_error(#[trigger] patterns[i]) is None,
    decreases patterns.len(),
{
    if patterns.len() > 0 {
        let init = patterns.drop_last();
        lemma_first_glob_error(init);
        assert forall|i: int| 0 <= i < init.len() implies init[i] == patterns[i] by {}
        if first_glob_error(patterns) is None {
            assert forall|i: int| 0 <= i < patterns.len() implies glob_error(
                #[trigger] patterns[i],
            ) is None by {
                if i < init.len() {
                    assert(glob_error(init[i]) is None);
                }
            }
        } else if first_glob_error(init) is Some {
            let i = choose|i: int| 0 <= i < init.len() && !(glob_error(#[trigger] init[i]) is None);
            assert(glob_error(patterns[i]) is Some);
        } else {
            assert(glob_error(patterns[patterns.len() - 1]) is Some);
        }
    }
}

/// The first failure among patterns put one after the other is the first
/// failure in the front, or else the first in the back.
pub proof fn lemma_first_glob_error_concat(front: Seq<Seq<char>>, back: Seq<Seq<char>>)
    ensures
        first_glob_error(front + back) == match first_glob_error(front) {
            Some(message) => Some(message),
            None => first_glob_error(back),
        },
    decreases back.len(),
{
    if back.len() == 0 {
        assert(front + back =~= front);
    } else {
        lemma_first_glob_error_concat(front, back.drop_last());
        assert((front + back).drop_last() =~= front + back.drop_last());
        assert((front + back).last() == back.last());
    }
}

fn add_patterns(builder: &mut globset::GlobSetBuilder, patterns: &Vec<String>) -> (r: Result<
    (),
    Error,
>)
    ensures
        match first_glob_error(views(patterns@)) {
            None => r is Ok && builder_patterns(*final(builder)) == builder_patterns(*old(builder))
                + views(patterns@),
            Some(message) => r is Err && r->Err_0@ == ErrorView::GlobSetParseError(message),
        },
{
    let ghost start = builder_patterns(*builder);
    let ghost all = views(patterns@);
    let mut i: usize = 0;
    assert(start + all.subrange(0, 0) =~= start);
    assert(all.subrange(0, 0) =~= Seq::<Seq<char>>::empty());
    while i < patterns.len()
        invariant
            i <= patterns.len(),
            all == views(patterns@),
            builder_patterns(*builder) == start + all.subrange(0, i as int),
            first_glob_error(all.subrange(0, i as int)) is None,
        decreases patterns.len() - i,
    {
        assert(all.subrange(0, i + 1).drop_last() =~= all.subrange(0, i as int));
        assert(all.subrange(0, i + 1).last() == patterns@[i as int]@);
        match add_pattern(builder, patterns[i].as_str()) {
            Ok(()) => {},
            Err(message) => {
                proof {
                    assert(all =~= all.subrange(0, i + 1) + all.subrange(
                        i + 1,
                        all.len() as int,
                    ));
                    lemma_first_glob_error_concat(
                        all.subrange(0, i + 1),
                        all.subrange(i + 1, all.len() as int),
                    );
                }
                return Err(Error::GlobSetParseError(message));
            },
        }
        assert(start + all.subrange(0, i + 1) =~= (start + all.subrange(0, i as int)).push(
            patterns@[i as int]@,
        ));
        i = i + 1;
    }
    assert(all.subrange(0, i as int) =~= all);
    Ok(())
}

/// Compiles the built-in patterns and the patterns of the ignore file into one
/// matcher. `content` is what the ignore file holds, `None` if there is none.
/// Whether a pattern compiles is the glob compiler's call, which
/// [`glob_error`] and [`glob_set_error`] name: the parse succeeds exactly
/// where every pattern compiles and the set builds, and fails with the
/// message for the first pattern that does not compile, else with that of
/// building the set.
pub fn parse_bakerignore_file(content: Option<&str>) -> (r: Result<IgnoreMatcher, Error>)
    ensures
        r is Ok <==> (forall|i: int|
            0 <= i < all_patterns(content_view(content)).len() ==> glob_error(
                #[trigger] all_patterns(content_view(content))[i],
            ) is None) && glob_set_error(all_patterns(content_view(content))) is None,
        match matcher_error(all_patterns(content_view(content))) {
            None => r is Ok && r->Ok_0.patterns() == all_patterns(content_view(content)),
            Some(message) => r is Err && r->Err_0@ == ErrorView::GlobSetParseError(message),
        },
        r is Ok ==> forall|path: Seq<char>|
            any_matches(default_patterns(), path) ==> #[trigger] r->Ok_0.matches(path),
{
    let ghost shown = content_view(content);
    let ghost all = all_patterns(shown);
    let ghost user = match content {
        Some(text) => user_patterns(text@),
        None => Seq::<Seq<char>>::empty(),
    };
    proof {
        assert(all =~= default_patterns() + user);
        lemma_first_glob_error(all);
        lemma_first_glob_error_concat(default_patterns(), user);
    }
    let mut builder = new_builder();
    let defaults = default_ignore_patterns();
    match add_patterns(&mut builder, &defaults) {
        Ok(()) => {},
        Err(e) => {
            return Err(e);
        },
    }
    assert(builder_patterns(builder) =~= default_patterns());
    if let Some(text) = content {
        let lines = parse_ignore_lines(text);
        match add_patterns(&mut builder, &lines) {
            Ok(()) => {},
            Err(e) => {
                return Err(e);
            },
        }
    }
    assert(builder_patterns(builder) =~= all);
    match build_set(&builder) {
        Ok(set) => {
            let matcher = IgnoreMatcher { set };
            proof {
                assert forall|path: Seq<char>|
                    any_matches(default_patterns(), path) implies #[trigger] matcher.matches(
                    path,
                ) by {
                    lemma_defaults_prevail(shown, path);
                }
            }
            Ok(matcher)
        },
        Err(message) => Err(Error::GlobSetParseError(message)),
    }
}

} // verus!
