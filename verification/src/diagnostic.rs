//! What the process says when the launch fails.
use vstd::prelude::*;
use vstd::string::StringExecFns;

verus! {

/// The fixed text of the diagnostic.
pub open spec fn failure_text() -> Seq<char> {
    "error while running Séance"@
}

/// The fixed text with which every failure of the launch is reported.
pub fn failure_message() -> (message: &'static str)
    ensures
        message@ == failure_text(),
{
    "error while running Séance"
}

/// The diagnostic with which the process ends on [`crate::Action::Abort`]:
/// the fixed text, a colon and a space, then `detail`, the framework's own
/// account of what went wrong.
pub fn abort_message(detail: &str) -> (message: String)
    ensures
        message@ == failure_text() + ": "@ + detail@,
{
    let text = String::from_str(failure_message());
    text.concat(": ").concat(detail)
}

} // verus!
