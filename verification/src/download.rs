//! Checking whether a model is present at a local path.

use vstd::prelude::*;

use crate::services::model::Diagnostic;
use crate::services::model::Level;

verus! {

/// What the command line says about the model to check.
#[derive(Debug, PartialEq, Eq)]
pub struct DownloadArgs {
    /// The path at which the model is expected.
    pub model: String,
}

/// The line that reports the outcome of the check.
pub open spec fn presence_report(model: Seq<char>, found: bool) -> (Level, Seq<char>) {
    if found {
        (Level::Info, "Model exists at local path: "@ + model)
    } else {
        (Level::Warn, "Model not found at local path: "@ + model)
    }
}

/// Reports the outcome of the check, given what a look at the path showed.
pub fn report(args: &DownloadArgs, found: bool) -> (line: Diagnostic)
    ensures
        (line.level, line.message@) == presence_report(args.model@, found),
{
    if found {
        let mut message = "Model exists at local path: ".to_owned();
        message.append(args.model.as_str());
        Diagnostic { level: Level::Info, message }
    } else {
        let mut message = "Model not found at local path: ".to_owned();
        message.append(args.model.as_str());
        Diagnostic { level: Level::Warn, message }
    }
}

} // verus!
