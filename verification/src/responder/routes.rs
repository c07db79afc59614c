//! What the routes of the status page answer with.

use vstd::prelude::*;
use vstd::string::StringExecFns;

use crate::prober::status::Status;

verus! {

/// The name of the file that holds the badge of a kind for a status.
pub open spec fn spec_badge_file_name(kind: Seq<char>, status: Status) -> Seq<char> {
    kind + "-"@ + status.spec_as_str() + "-default.svg"@
}

/// Names the file of a badge.
pub fn badge_file_name(kind: &str, status: &Status) -> (name: String)
    ensures
        name@ == spec_badge_file_name(kind@, *status),
{
    let mut name = kind.to_owned();
    name.append("-");
    name.append(status.as_str());
    name.append("-default.svg");
    name
}

/// The text of the status route: the global status.
pub fn status_text(status: &Status) -> (text: &'static str)
    ensures
        text@ == status.spec_as_str(),
{
    status.as_str()
}

} // verus!
