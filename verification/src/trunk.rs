//! Which branch a command compares against when none is named.

use vstd::prelude::*;

verus! {

/// Where the trunk branch comes from.
pub enum TrunkChoice {
    /// The trunk is known without asking git.
    Known(String),
    /// The trunk must be detected from the repository.
    Detect,
}

/// The branch named by `explicit`, else the configured trunk, else detection.
pub fn choose_branch(explicit: Option<String>, configured: Option<String>) -> (c: TrunkChoice)
    ensures
        match (explicit, configured) {
            (Some(b), _) => c == TrunkChoice::Known(b),
            (None, Some(t)) => c == TrunkChoice::Known(t),
            (None, None) => c == TrunkChoice::Detect,
        },
{
    match explicit {
        Some(b) => TrunkChoice::Known(b),
        None => match configured {
            Some(t) => TrunkChoice::Known(t),
            None => TrunkChoice::Detect,
        },
    }
}

/// The detected trunk, or `main` when detection failed.
pub fn detected_or_main(detected: Option<String>) -> (t: String)
    ensures
        match detected {
            Some(d) => t@ == d@,
            None => t@ == "main"@,
        },
{
    match detected {
        Some(d) => d,
        None => String::from_str("main"),
    }
}

} // verus!
