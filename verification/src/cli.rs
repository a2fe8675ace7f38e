//! What the command line asks for.
use vstd::prelude::*;

verus! {

/// Command-line arguments structure for Baker.
#[derive(Debug)]
pub struct Args {
    /// Path to the template directory or git repository URL.
    pub template: String,
    /// Directory where the generated project will be created.
    pub output_dir: String,
    /// Force overwrite of existing output directory.
    pub force: bool,
    /// Enable verbose logging output.
    pub verbose: bool,
    /// Get answers from standard input.
    pub stdin: bool,
    /// Skip confirmation prompts when overwriting existing files.
    pub skip_overwrite_check: bool,
    /// Skip confirmation prompts when executing hooks.
    pub skip_hooks_check: bool,
}

} // verus!
