//! The push decision.

use vstd::prelude::*;
use vstd::string::StringExecFns;

verus! {

/// How the final push is to be made: to which branch, and whether
/// the remote's history may be overwritten.
#[derive(Debug, PartialEq, Eq)]
pub struct PushDecision {
    pub branch: String,
    pub force: bool,
}

/// Decides the push: the given branch, or "main" when none was
/// given, and a forced push exactly when the request backdated
/// commits or asked for more than one — such synthetic histories are
/// expected to diverge from any prior remote history of the branch.
/// Force is false in every other case.
pub fn decide_push(branch: Option<String>, backdate: bool, count: u32) -> (d: PushDecision)
    ensures
        d.force == (backdate || count > 1),
        match branch {
            Some(b) => d.branch@ == b@,
            None => d.branch@ == "main"@,
        },
{
    let b: String = match branch {
        Some(b) => b,
        None => "main".to_owned(),
    };
    PushDecision { branch: b, force: backdate || count > 1 }
}

} // verus!
