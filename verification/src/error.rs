//! The failures that resolving answers and materializing entries can report.
use vstd::prelude::*;
use vstd::string::*;

verus! {

/// Everything that can go wrong, with the text that describes it.
#[derive(Debug)]
pub enum Error {
    /// A file system operation failed.
    IoError(String),
    /// The question file could not be parsed.
    ConfigParseError(String),
    /// An ignore pattern could not be compiled.
    GlobSetParseError(String),
    /// A prompt could not be displayed or read.
    PromptError(String),
    /// A repository could not be cloned.
    Git2Error(String),
    /// The template engine rejected a template.
    MinijinjaError(String),
    /// A template could not be processed.
    TemplateError(String),
    /// None of the question files exists in the template directory.
    ConfigError { template_dir: String, config_files: String },
    /// A hook ran and ended unsuccessfully; `status` is how it ended.
    HookExecutionError { status: String },
    /// User input did not pass validation.
    ValidationError(String),
    /// The ignore file could not be processed.
    BakerIgnoreError(String),
    /// The output directory is already there and overwriting was not asked for.
    OutputDirectoryExistsError { output_dir: String },
    /// The template directory is missing.
    TemplateDoesNotExistsError { template_dir: String },
    /// The template source is neither a path nor a repository.
    TemplateSourceInvalidError,
    /// A template entry could not be turned into an operation.
    ProcessError { source_path: String, e: String },
}

/// An [`Error`] with its texts as sequences of characters.
pub enum ErrorView {
    IoError(Seq<char>),
    ConfigParseError(Seq<char>),
    GlobSetParseError(Seq<char>),
    PromptError(Seq<char>),
    Git2Error(Seq<char>),
    MinijinjaError(Seq<char>),
    TemplateError(Seq<char>),
    ConfigError { template_dir: Seq<char>, config_files: Seq<char> },
    HookExecutionError { status: Seq<char> },
    ValidationError(Seq<char>),
    BakerIgnoreError(Seq<char>),
    OutputDirectoryExistsError { output_dir: Seq<char> },
    TemplateDoesNotExistsError { template_dir: Seq<char> },
    TemplateSourceInvalidError,
    ProcessError { source_path: Seq<char>, e: Seq<char> },
}

impl View for Error {
    type V = ErrorView;

    open spec fn view(&self) -> ErrorView {
        match self {
            Error::IoError(e) => ErrorView::IoError(e@),
            Error::ConfigParseError(e) => ErrorView::ConfigParseError(e@),
            Error::GlobSetParseError(e) => ErrorView::GlobSetParseError(e@),
            Error::PromptError(e) => ErrorView::PromptError(e@),
            Error::Git2Error(e) => ErrorView::Git2Error(e@),
            Error::MinijinjaError(e) => ErrorView::MinijinjaError(e@),
            Error::TemplateError(e) => ErrorView::TemplateError(e@),
            Error::ConfigError { template_dir, config_files } => ErrorView::ConfigError {
                template_dir: template_dir@,
                config_files: config_files@,
            },
            Error::HookExecutionError { status } => ErrorView::HookExecutionError {
                status: status@,
            },
            Error::ValidationError(e) => ErrorView::ValidationError(e@),
            Error::BakerIgnoreError(e) => ErrorView::BakerIgnoreError(e@),
            Error::OutputDirectoryExistsError { output_dir } =>
                ErrorView::OutputDirectoryExistsError { output_dir: output_dir@ },
            Error::TemplateDoesNotExistsError { template_dir } =>
                ErrorView::TemplateDoesNotExistsError { template_dir: template_dir@ },
            Error::TemplateSourceInvalidError => ErrorView::TemplateSourceInvalidError,
            Error::ProcessError { source_path, e } => ErrorView::ProcessError {
                source_path: source_path@,
                e: e@,
            },
        }
    }
}

/// A result with both sides viewed.
pub open spec fn result_view<T: View>(r: Result<T, Error>) -> Result<T::V, ErrorView> {
    match r {
        Ok(value) => Ok(value@),
        Err(e) => Err(e@),
    }
}

impl Error {
    /// The text shown to the user for this error.
    pub open spec fn message(&self) -> Seq<char> {
        match self {
            Error::IoError(e) => "IO error: "@ + e@ + "."@,
            Error::ConfigParseError(e) => "Failed to parse config file. Original error: "@ + e@
                + "."@,
            Error::GlobSetParseError(e) => "Failed to parse .bakerignore file. Original error: "@
                + e@,
            Error::PromptError(e) => "Failed to display confirmation prompt. Original error: "@
                + e@,
            Error::Git2Error(e) => "Failed to clone repository. Original error: "@ + e@,
            Error::MinijinjaError(e) => "Failed to render. Original error: "@ + e@,
            Error::TemplateError(e) => "Template error: "@ + e@ + "."@,
            Error::ConfigError { template_dir, config_files } => "No configuration file found in '"@
                + template_dir@ + "'. Tried: "@ + config_files@ + "."@,
            Error::HookExecutionError { status } => "Hook execution failed with status: "@
                + status@,
            Error::ValidationError(e) => "Validation error: "@ + e@ + "."@,
            Error::BakerIgnoreError(e) => "BakerIgnore error: "@ + e@ + "."@,
            Error::OutputDirectoryExistsError { output_dir } => "Cannot proceed: output directory '"@
                + output_dir@ + "' already exists. Use --force to overwrite it."@,
            Error::TemplateDoesNotExistsError { template_dir } =>
                "Cannot proceed: template directory '"@ + template_dir@ + "' does not exist."@,
            Error::TemplateSourceInvalidError => "Cannot proceed: invalid type of template source."@,
            Error::ProcessError { source_path, e } => "Cannot process the source path: '"@
                + source_path@ + "'. Original error: "@ + e@,
        }
    }

    /// Renders the error as [`Error::message`] describes.
    pub fn to_string(&self) -> (r: String)
        ensures
            r@ == self.message(),
    {
        match self {
            Error::IoError(e) => {
                let mut r = "IO error: ".to_owned();
                r.append(e.as_str());
                r.append(".");
                r
            },
            Error::ConfigParseError(e) => {
                let mut r = "Failed to parse config file. Original error: ".to_owned();
                r.append(e.as_str());
                r.append(".");
                r
            },
            Error::GlobSetParseError(e) => {
                let mut r = "Failed to parse .bakerignore file. Original error: ".to_owned();
                r.append(e.as_str());
                r
            },
            Error::PromptError(e) => {
                let mut r = "Failed to display confirmation prompt. Original error: ".to_owned();
                r.append(e.as_str());
                r
            },
            Error::Git2Error(e) => {
                let mut r = "Failed to clone repository. Original error: ".to_owned();
                r.append(e.as_str());
                r
            },
            Error::MinijinjaError(e) => {
                let mut r = "Failed to render. Original error: ".to_owned();
                r.append(e.as_str());
                r
            },
            Error::TemplateError(e) => {
                let mut r = "Template error: ".to_owned();
                r.append(e.as_str());
                r.append(".");
                r
            },
            Error::ConfigError { template_dir, config_files } => {
                let mut r = "No configuration file found in '".to_owned();
                r.append(template_dir.as_str());
                r.append("'. Tried: ");
                r.append(config_files.as_str());
                r.append(".");
                r
            },
            Error::HookExecutionError { status } => {
                let mut r = "Hook execution failed with status: ".to_owned();
                r.append(status.as_str());
                r
            },
            Error::ValidationError(e) => {
                let mut r = "Validation error: ".to_owned();
                r.append(e.as_str());
                r.append(".");
                r
            },
            Error::BakerIgnoreError(e) => {
                let mut r = "BakerIgnore error: ".to_owned();
                r.append(e.as_str());
                r.append(".");
                r
            },
            Error::OutputDirectoryExistsError { output_dir } => {
                let mut r = "Cannot proceed: output directory '".to_owned();
                r.append(output_dir.as_str());
                r.append("' already exists. Use --force to overwrite it.");
                r
            },
            Error::TemplateDoesNotExistsError { template_dir } => {
                let mut r = "Cannot proceed: template directory '".to_owned();
                r.append(template_dir.as_str());
                r.append("' does not exist.");
                r
            },
            Error::TemplateSourceInvalidError => {
                "Cannot proceed: invalid type of template source.".to_owned()
            },
            Error::ProcessError { source_path, e } => {
                let mut r = "Cannot process the source path: '".to_owned();
                r.append(source_path.as_str());
                r.append("'. Original error: ");
                r.append(e.as_str());
                r
            },
        }
    }
}

} // verus!
