//! The hooks of a template: where they are, what they are told, and what their
//! ending means.
use vstd::prelude::*;
use vstd::string::*;

use crate::error::{Error, ErrorView};
use crate::json::{json_text, string_text, write_string};
use crate::template::processor::{join_path, join_under};
use crate::text::concat;
use crate::value::{Json, Value};

verus! {

/// Structure representing data passed to hook scripts: it goes to the hook as
/// one JSON document on its standard input.
#[derive(Debug)]
pub struct Output {
    /// Absolute path to the template directory.
    pub template_dir: String,
    /// Absolute path to the output directory.
    pub output_dir: String,
    /// The answer context, where the answers are known already.
    pub answers: Option<Value>,
}

/// The JSON document for a hook.
pub open spec fn payload_text(template_dir: Seq<char>, output_dir: Seq<char>, answers: Option<Json>)
    -> Seq<char> {
    "{\"template_dir\":"@ + string_text(template_dir) + ",\"output_dir\":"@ + string_text(
        output_dir,
    ) + ",\"answers\":"@ + (match answers {
        Some(value) => json_text(value),
        None => "null"@,
    }) + "}"@
}

impl Output {
    /// The JSON document that the hook receives.
    pub fn to_json(&self) -> (r: String)
        ensures
            r@ == payload_text(
                self.template_dir@,
                self.output_dir@,
                match self.answers {
                    Some(value) => Some(value.model()),
                    None => None,
                },
            ),
    {
        let mut r = "{\"template_dir\":".to_owned();
        write_string(&mut r, self.template_dir.as_str());
        r.append(",\"output_dir\":");
        write_string(&mut r, self.output_dir.as_str());
        r.append(",\"answers\":");
        match &self.answers {
            Some(value) => {
                value.write_json(&mut r);
            },
            None => {
                r.append("null");
            },
        }
        r.append("}");
        r
    }
}

/// Returns the file path followed by a line feed if the file exists; otherwise
/// an empty string.
pub fn get_path_if_exists(path: &str, path_exists: bool) -> (r: String)
    ensures
        path_exists ==> r@ == path@.push('\n'),
        !path_exists ==> r@ == Seq::<char>::empty(),
{
    if path_exists {
        proof {
            reveal_strlit("\n");
            assert(path@ + "\n"@ =~= path@.push('\n'));
        }
        concat(path, "\n")
    } else {
        String::new()
    }
}

/// Gets paths to pre and post generation hook scripts.
pub fn get_hooks_dirs(template_dir: &str) -> (r: (String, String))
    ensures
        r.0@ == join_path(join_path(template_dir@, "hooks"@), "pre_gen_project"@),
        r.1@ == join_path(join_path(template_dir@, "hooks"@), "post_gen_project"@),
{
    let hooks_dir = join_under(template_dir, "hooks");
    (
        join_under(hooks_dir.as_str(), "pre_gen_project"),
        join_under(hooks_dir.as_str(), "post_gen_project"),
    )
}

/// What the ending of a hook means for the run: nothing where it ended well,
/// a fatal error where it did not. `status` is how the hook ended.
pub fn check_hook_status(success: bool, status: &str) -> (r: Result<(), Error>)
    ensures
        match r {
            Ok(()) => success,
            Err(e) => !success && e@ == (ErrorView::HookExecutionError { status: status@ }),
        },
{
    if success {
        Ok(())
    } else {
        Err(Error::HookExecutionError { status: status.to_owned() })
    }
}

} // verus!
