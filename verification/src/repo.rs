//! Failures reported by the stores behind the use-cases.

use vstd::prelude::*;

verus! {

/// A store operation failed; `message` is its description.
#[derive(Debug, Clone)]
pub struct RepoError {
    pub message: String,
}

} // verus!
