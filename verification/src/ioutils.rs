//! Decisions at the edge of the file system and of the answer sources.
use vstd::prelude::*;
use vstd::string::*;

use crate::error::{result_view, Error, ErrorView};
use crate::value::{member_models, Json, Value};

verus! {

/// Ensures the output directory is safe to write to: it must not exist, unless
/// overwriting it was asked for.
pub fn get_output_dir(output_dir: &str, dir_exists: bool, force: bool) -> (r: Result<String, Error>)
    ensures
        result_view(r) == if dir_exists && !force {
            Err::<Seq<char>, ErrorView>(
                ErrorView::OutputDirectoryExistsError { output_dir: output_dir@ },
            )
        } else {
            Ok::<Seq<char>, ErrorView>(output_dir@)
        },
{
    if dir_exists && !force {
        return Err(Error::OutputDirectoryExistsError { output_dir: output_dir.to_owned() });
    }
    Ok(output_dir.to_owned())
}

/// The answers that a parsed document supplies: the document where it is an
/// object, else an object without members. `None` stands for text that is no
/// JSON: it supplies nothing, and that is no error.
pub fn parse_string_to_json(parsed: Option<Value>) -> (r: Value)
    ensures
        r.model() == match parsed {
            Some(value) => if value.model() is Object {
                value.model()
            } else {
                Json::Object(Seq::<(Seq<char>, Json)>::empty())
            },
            None => Json::Object(Seq::<(Seq<char>, Json)>::empty()),
        },
{
    match parsed {
        Some(Value::Object(members)) => Value::Object(members),
        _ => {
            let members: Vec<(String, Value)> = Vec::new();
            assert(member_models(members) =~= Seq::<(Seq<char>, Json)>::empty());
            Value::Object(members)
        },
    }
}

} // verus!
