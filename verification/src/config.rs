//! The configuration of a template: its file, and the questions it declares.
use vstd::prelude::*;
use vstd::string::*;

use crate::error::{result_view, Error, ErrorView};
use crate::question::Question;
use crate::template::processor::{join_path, join_under};

verus! {

/// Main configuration structure holding all questions, in the order in which
/// they are asked.
pub struct Config {
    /// Map of question identifiers to their configurations.
    pub questions: indexmap::IndexMap<String, Question>,
}

/// The path of the configuration file to load: the first of the three names
/// that is present in the template directory.
pub open spec fn chosen_config(
    template_dir: Seq<char>,
    json_exists: bool,
    yml_exists: bool,
    yaml_exists: bool,
) -> Result<Seq<char>, ErrorView> {
    if json_exists {
        Ok(join_path(template_dir, "baker.json"@))
    } else if yml_exists {
        Ok(join_path(template_dir, "baker.yml"@))
    } else if yaml_exists {
        Ok(join_path(template_dir, "baker.yaml"@))
    } else {
        Err(
            ErrorView::ConfigError {
                template_dir,
                config_files: "baker.json, baker.yml, baker.yaml"@,
            },
        )
    }
}

/// Picks the configuration file of a template directory, given which of
/// `baker.json`, `baker.yml` and `baker.yaml` exist there.
pub fn load_config(template_dir: &str, json_exists: bool, yml_exists: bool, yaml_exists: bool) -> (r:
    Result<String, Error>)
    ensures
        result_view(r) == chosen_config(template_dir@, json_exists, yml_exists, yaml_exists),
{
    if json_exists {
        Ok(join_under(template_dir, "baker.json"))
    } else if yml_exists {
        Ok(join_under(template_dir, "baker.yml"))
    } else if yaml_exists {
        Ok(join_under(template_dir, "baker.yaml"))
    } else {
        Err(
            Error::ConfigError {
                template_dir: template_dir.to_owned(),
                config_files: "baker.json, baker.yml, baker.yaml".to_owned(),
            },
        )
    }
}

} // verus!
