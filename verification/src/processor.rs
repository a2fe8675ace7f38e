//! Carrying out a decided operation: what to do when the target is already
//! there.
use vstd::prelude::*;
use vstd::string::*;

use crate::error::{Error, ErrorView};
use crate::prompt::{confirm, flag_reply, ConfirmationPrompter, ConfirmationView};
use crate::template::operation::TemplateOperation;
use crate::text::concat;

verus! {

/// What happens to an entry, for the report.
#[derive(Debug, Clone, Copy, PartialEq, Eq, Structural)]
pub enum FileAction {
    Create,
    Overwrite,
    Skip,
}

impl FileAction {
    /// The label of the action.
    pub open spec fn label(&self) -> Seq<char> {
        match self {
            FileAction::Create => "Creating"@,
            FileAction::Overwrite => "Overwriting"@,
            FileAction::Skip => "Skipping"@,
        }
    }

    /// The label of the action, as text.
    pub fn to_string(&self) -> (r: String)
        ensures
            r@ == self.label(),
    {
        match self {
            FileAction::Create => "Creating".to_owned(),
            FileAction::Overwrite => "Overwriting".to_owned(),
            FileAction::Skip => "Skipping".to_owned(),
        }
    }
}

/// What has to be done on the output tree.
#[derive(Debug)]
pub enum FileOperation {
    /// Copy the source to `target`.
    Copy { target: String },
    /// Write `content` to `target`.
    Write { target: String, content: String },
    /// Create the directory `target` and those above it.
    CreateDirectory { target: String },
}

/// A [`FileOperation`] with its texts as sequences of characters.
pub enum FileOperationView {
    Copy { target: Seq<char> },
    Write { target: Seq<char>, content: Seq<char> },
    CreateDirectory { target: Seq<char> },
}

impl View for FileOperation {
    type V = FileOperationView;

    open spec fn view(&self) -> FileOperationView {
        match self {
            FileOperation::Copy { target } => FileOperationView::Copy { target: target@ },
            FileOperation::Write { target, content } => FileOperationView::Write {
                target: target@,
                content: content@,
            },
            FileOperation::CreateDirectory { target } => FileOperationView::CreateDirectory {
                target: target@,
            },
        }
    }
}

/// The outcome for one entry: the action to report, and the operation to
/// perform, if any.
#[derive(Debug)]
pub struct ProcessResult {
    pub action: FileAction,
    pub operation: Option<FileOperation>,
    pub source: String,
}

/// The action for a file whose target exists or not, given whether replacing
/// an existing target was agreed to.
pub open spec fn file_action(target_exists: bool, user_confirmed_overwrite: bool) -> FileAction {
    if !target_exists {
        FileAction::Create
    } else if user_confirmed_overwrite {
        FileAction::Overwrite
    } else {
        FileAction::Skip
    }
}

/// The question put to the user before an existing target is replaced.
pub open spec fn overwrite_question(target: Seq<char>) -> Seq<char> {
    "Overwrite "@ + target + "?"@
}

/// Whether the operation would replace something: a copy or a write whose
/// target exists.
pub open spec fn is_conflict(operation: TemplateOperation) -> bool {
    match operation {
        TemplateOperation::Copy { target_exists, .. } => target_exists,
        TemplateOperation::Write { target_exists, .. } => target_exists,
        _ => false,
    }
}

/// The target of an operation that can run into a conflict: that of a copy or
/// of a write. Nothing for the others.
pub open spec fn conflict_target(operation: TemplateOperation) -> Seq<char> {
    match operation {
        TemplateOperation::Copy { target, .. } => target@,
        TemplateOperation::Write { target, .. } => target@,
        _ => Seq::<char>::empty(),
    }
}

/// What becomes of the operation decided for `template_entry`, given whether
/// replacing an existing target was agreed to. A directory is created unless
/// it is there; nothing is done for an ignored entry; a file is created, or
/// replaced, or skipped as [`file_action`] says. A skip performs no operation.
/// The entry is reported as the source in every case.
pub open spec fn outcome(
    template_entry: Seq<char>,
    operation: TemplateOperation,
    user_confirmed_overwrite: bool,
) -> (FileAction, Option<FileOperationView>, Seq<char>) {
    match operation {
        TemplateOperation::Ignore { .. } => (FileAction::Skip, None, template_entry),
        TemplateOperation::CreateDirectory { target, target_exists } => if target_exists {
            (FileAction::Skip, None, template_entry)
        } else {
            (
                FileAction::Create,
                Some(FileOperationView::CreateDirectory { target: target@ }),
                template_entry,
            )
        },
        TemplateOperation::Copy { target, target_exists, .. } => {
            let action = file_action(target_exists, user_confirmed_overwrite);
            if action == FileAction::Skip {
                (action, None, template_entry)
            } else {
                (action, Some(FileOperationView::Copy { target: target@ }), template_entry)
            }
        },
        TemplateOperation::Write { target, content, target_exists } => {
            let action = file_action(target_exists, user_confirmed_overwrite);
            if action == FileAction::Skip {
                (action, None, template_entry)
            } else {
                (
                    action,
                    Some(FileOperationView::Write { target: target@, content: content@ }),
                    template_entry,
                )
            }
        },
    }
}

/// What becomes of the operation once the prompter has handed back `reply` to
/// the question whether to overwrite: the outcome for the answer, or the
/// failure of the prompt.
pub open spec fn outcome_of_reply(
    template_entry: Seq<char>,
    operation: TemplateOperation,
    reply: Result<bool, ErrorView>,
) -> Result<(FileAction, Option<FileOperationView>, Seq<char>), ErrorView> {
    match reply {
        Ok(agreed) => Ok(outcome(template_entry, operation, agreed)),
        Err(e) => Err(e),
    }
}

/// A result of [`Processor::process`], as [`outcome_of_reply`] speaks of it.
pub open spec fn process_model(r: Result<ProcessResult, Error>) -> Result<
    (FileAction, Option<FileOperationView>, Seq<char>),
    ErrorView,
> {
    match r {
        Ok(result) => Ok(result_model(result)),
        Err(e) => Err(e@),
    }
}

/// A [`ProcessResult`] as the triple that [`outcome`] speaks of.
pub open spec fn result_model(result: ProcessResult) -> (
    FileAction,
    Option<FileOperationView>,
    Seq<char>,
) {
    (
        result.action,
        match result.operation {
            Some(operation) => Some(operation@),
            None => None,
        },
        result.source@,
    )
}

/// The action for a file, as [`file_action`] defines it.
pub fn decide_action(target_exists: bool, user_confirmed_overwrite: bool) -> (r: FileAction)
    ensures
        r == file_action(target_exists, user_confirmed_overwrite),
{
    if !target_exists {
        FileAction::Create
    } else if user_confirmed_overwrite {
        FileAction::Overwrite
    } else {
        FileAction::Skip
    }
}

/// What becomes of the operation decided for `template_entry`, as [`outcome`]
/// defines it.
pub fn apply_policy(
    template_entry: &str,
    operation: TemplateOperation,
    user_confirmed_overwrite: bool,
) -> (r: ProcessResult)
    ensures
        result_model(r) == outcome(template_entry@, operation, user_confirmed_overwrite),
{
    let source = template_entry.to_owned();
    match operation {
        TemplateOperation::Ignore { .. } => ProcessResult {
            action: FileAction::Skip,
            operation: None,
            source,
        },
        TemplateOperation::CreateDirectory { target, target_exists } => {
            if target_exists {
                ProcessResult { action: FileAction::Skip, operation: None, source }
            } else {
                ProcessResult {
                    action: FileAction::Create,
                    operation: Some(FileOperation::CreateDirectory { target }),
                    source,
                }
            }
        },
        TemplateOperation::Copy { target, target_exists, .. } => {
            let action = decide_action(target_exists, user_confirmed_overwrite);
            match action {
                FileAction::Skip => ProcessResult { action, operation: None, source },
                _ => ProcessResult {
                    action,
                    operation: Some(FileOperation::Copy { target }),
                    source,
                },
            }
        },
        TemplateOperation::Write { target, content, target_exists } => {
            let action = decide_action(target_exists, user_confirmed_overwrite);
            match action {
                FileAction::Skip => ProcessResult { action, operation: None, source },
                _ => ProcessResult {
                    action,
                    operation: Some(FileOperation::Write { target, content }),
                    source,
                },
            }
        },
    }
}

/// Applies the conflict policy to decided operations.
pub struct Processor<'a, P: ConfirmationPrompter> {
    prompt: &'a P,
    skip_overwrite_check: bool,
}

impl<'a, P: ConfirmationPrompter> Processor<'a, P> {
    /// The prompter that is asked about conflicts.
    pub closed spec fn prompter(&self) -> P {
        *self.prompt
    }

    /// Whether existing targets are replaced without asking.
    pub closed spec fn overwrites_unasked(&self) -> bool {
        self.skip_overwrite_check
    }

    /// A processor that asks through `prompt`, or not at all where
    /// `skip_overwrite_check` is set.
    pub fn new(prompt: &'a P, skip_overwrite_check: bool) -> (r: Self)
        ensures
            r.prompter() == *prompt,
            r.overwrites_unasked() == skip_overwrite_check,
    {
        Processor { prompt, skip_overwrite_check }
    }

    /// Decides what becomes of the operation decided for `template_entry`.
    /// Without a conflict, or where replacing unasked was chosen, nobody is
    /// asked and the outcome is that of an agreed replacement. Else the user
    /// is asked whether to overwrite the target, and what the prompter hands
    /// back decides: yes replaces, no skips, and a prompt that fails is the
    /// failure of the entry.
    pub fn process(&self, template_entry: &str, operation: TemplateOperation) -> (r: Result<
        ProcessResult,
        Error,
    >)
        ensures
            !is_conflict(operation) || self.overwrites_unasked() ==> process_model(r) == Ok::<
                (FileAction, Option<FileOperationView>, Seq<char>),
                ErrorView,
            >(outcome(template_entry@, operation, true)),
            is_conflict(operation) && !self.overwrites_unasked() ==> exists|
                reply: Result<bool, ErrorView>,
            |
                #[trigger] self.prompter().confirmed(
                    (ConfirmationView {
                        prompt: overwrite_question(conflict_target(operation)),
                        default: false,
                    }),
                    reply,
                ) && process_model(r) == outcome_of_reply(template_entry@, operation, reply),
    {
        let prompt_not_needed = self.skip_overwrite_check || match &operation {
            TemplateOperation::Copy { target_exists, .. } => !*target_exists,
            TemplateOperation::Write { target_exists, .. } => !*target_exists,
            _ => true,
        };
        let question = match &operation {
            TemplateOperation::Copy { target, .. } => overwrite_prompt(target.as_str()),
            TemplateOperation::Write { target, .. } => overwrite_prompt(target.as_str()),
            _ => String::new(),
        };
        let reply = confirm(self.prompt, prompt_not_needed, question);
        let ghost handed_back = flag_reply(reply);
        let r = match reply {
            Ok(user_confirmed_overwrite) => Ok(
                apply_policy(template_entry, operation, user_confirmed_overwrite),
            ),
            Err(e) => Err(e),
        };
        proof {
            if is_conflict(operation) && !self.overwrites_unasked() {
                assert(self.prompter().confirmed(
                    (ConfirmationView {
                        prompt: overwrite_question(conflict_target(operation)),
                        default: false,
                    }),
                    handed_back,
                ));
                assert(process_model(r) == outcome_of_reply(
                    template_entry@,
                    operation,
                    handed_back,
                ));
            }
        }
        r
    }
}

/// The question put to the user before `target` is replaced.
pub fn overwrite_prompt(target: &str) -> (r: String)
    ensures
        r@ == overwrite_question(target@),
{
    let mut r = concat("Overwrite ", target);
    r.append("?");
    r
}

} // verus!
