//! What the screen asks of the loader of commit diffs that runs beside it,
//! and what the loader answers.
use crate::git::FileDiff;
use vstd::prelude::*;

verus! {

/// A request to the loader.
#[derive(Debug)]
pub enum Request {
    /// The diff of the commit with this hash, in the repository at this path.
    GetCommitDiff(String, String),
}

/// An answer of the loader.
#[derive(Debug)]
pub enum Response {
    /// The files of the diff of the commit with this hash.
    CommitDiff(String, Vec<FileDiff>),
}

/// The hash a response is about.
pub open spec fn response_hash(r: Response) -> Seq<char> {
    match r {
        Response::CommitDiff(h, _) => h@,
    }
}

/// The position of the last of `responses` about the commit `hash`.
pub open spec fn last_about(responses: Seq<Response>, hash: Seq<char>) -> Option<int>
    decreases responses.len(),
{
    if responses.len() == 0 {
        None
    } else if response_hash(responses.last()) == hash {
        Some(responses.len() - 1)
    } else {
        last_about(responses.drop_last(), hash)
    }
}

} // verus!
