//! What has to happen for one template entry, as plain data.
use vstd::prelude::*;
use vstd::string::*;

verus! {

/// The outcome of deciding on one template entry. Computing it touches nothing;
/// carrying it out is a separate step.
#[derive(Debug)]
pub enum TemplateOperation {
    /// Copy `source` to `target` byte for byte.
    Copy { source: String, target: String, target_exists: bool },
    /// Write the rendered `content` to `target`.
    Write { target: String, content: String, target_exists: bool },
    /// Create the directory `target`.
    CreateDirectory { target: String, target_exists: bool },
    /// Leave `source` out: the ignore patterns match it.
    Ignore { source: String },
}

/// A [`TemplateOperation`] with its paths and content as sequences of characters.
pub enum OperationView {
    Copy { source: Seq<char>, target: Seq<char>, target_exists: bool },
    Write { target: Seq<char>, content: Seq<char>, target_exists: bool },
    CreateDirectory { target: Seq<char>, target_exists: bool },
    Ignore { source: Seq<char> },
}

impl View for TemplateOperation {
    type V = OperationView;

    open spec fn view(&self) -> OperationView {
        match self {
            TemplateOperation::Copy { source, target, target_exists } => OperationView::Copy {
                source: source@,
                target: target@,
                target_exists: *target_exists,
            },
            TemplateOperation::Write { target, content, target_exists } => OperationView::Write {
                target: target@,
                content: content@,
                target_exists: *target_exists,
            },
            TemplateOperation::CreateDirectory { target, target_exists } =>
                OperationView::CreateDirectory { target: target@, target_exists: *target_exists },
            TemplateOperation::Ignore { source } => OperationView::Ignore { source: source@ },
        }
    }
}

impl TemplateOperation {
    /// The report line for this operation. `user_confirmed_overwrite` says
    /// whether an existing target may be replaced.
    pub open spec fn message(&self, user_confirmed_overwrite: bool) -> Seq<char> {
        match self {
            TemplateOperation::Copy { source, target, target_exists } => {
                if *target_exists {
                    if user_confirmed_overwrite {
                        "Copying '"@ + source@ + "' to '"@ + target@
                            + "' (overwriting existing file)"@
                    } else {
                        "Skipping copy of '"@ + source@ + "' to '"@ + target@
                            + "' (target already exists)"@
                    }
                } else {
                    "Copying '"@ + source@ + "' to '"@ + target@ + "'"@
                }
            },
            TemplateOperation::CreateDirectory { target, target_exists } => {
                if *target_exists {
                    "Skipping directory creation '"@ + target@ + "' (already exists)"@
                } else {
                    "Creating directory '"@ + target@ + "'"@
                }
            },
            TemplateOperation::Write { target, target_exists, .. } => {
                if *target_exists {
                    if user_confirmed_overwrite {
                        "Writing to '"@ + target@ + "' (overwriting existing file)"@
                    } else {
                        "Skipping write to '"@ + target@ + "' (target already exists)"@
                    }
                } else {
                    "Writing to '"@ + target@ + "'"@
                }
            },
            TemplateOperation::Ignore { source } => {
                "Ignoring '"@ + source@ + "' (matches ignore pattern)"@
            },
        }
    }

    /// Gets a message describing the operation and its status.
    pub fn get_message(&self, user_confirmed_overwrite: bool) -> (r: String)
        ensures
            r@ == self.message(user_confirmed_overwrite),
    {
        match self {
            TemplateOperation::Copy { source, target, target_exists } => {
                let mut r = if *target_exists && !user_confirmed_overwrite {
                    "Skipping copy of '".to_owned()
                } else {
                    "Copying '".to_owned()
                };
                r.append(source.as_str());
                r.append("' to '");
                r.append(target.as_str());
                if *target_exists {
                    if user_confirmed_overwrite {
                        r.append("' (overwriting existing file)");
                    } else {
                        r.append("' (target already exists)");
                    }
                } else {
                    r.append("'");
                }
                r
            },
            TemplateOperation::CreateDirectory { target, target_exists } => {
                if *target_exists {
                    let mut r = "Skipping directory creation '".to_owned();
                    r.append(target.as_str());
                    r.append("' (already exists)");
                    r
                } else {
                    let mut r = "Creating directory '".to_owned();
                    r.append(target.as_str());
                    r.append("'");
                    r
                }
            },
            TemplateOperation::Write { target, target_exists, .. } => {
                if *target_exists {
                    if user_confirmed_overwrite {
                        let mut r = "Writing to '".to_owned();
                        r.append(target.as_str());
                        r.append("' (overwriting existing file)");
                        r
                    } else {
                        let mut r = "Skipping write to '".to_owned();
                        r.append(target.as_str());
                        r.append("' (target already exists)");
                        r
                    }
                } else {
                    let mut r = "Writing to '".to_owned();
                    r.append(target.as_str());
                    r.append("'");
                    r
                }
            },
            TemplateOperation::Ignore { source } => {
                let mut r = "Ignoring '".to_owned();
                r.append(source.as_str());
                r.append("' (matches ignore pattern)");
                r
            },
        }
    }
}

} // verus!
