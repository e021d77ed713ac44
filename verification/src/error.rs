use vstd::prelude::*;

verus! {

/// Why a build could not proceed: either no recognizer matched and no
/// start-command override was supplied, or a capability operation of the
/// named builder reported a failure.
#[derive(Debug, Clone)]
pub enum BuildError {
    NoBuilderMatched,
    DetectFailed { builder: String, message: String },
    BuildInputsFailed { builder: String, message: String },
    InstallCmdFailed { builder: String, message: String },
    BuildCmdFailed { builder: String, message: String },
    StartCmdFailed { builder: String, message: String },
}

} // verus!
