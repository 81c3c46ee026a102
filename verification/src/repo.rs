//! A hosting provider's description of a repository: a plain data
//! value that surrounding code passes around, with no behavior of its
//! own.

use vstd::prelude::*;

verus! {

/// A remote repository as a hosting provider describes it.
#[derive(Debug, Clone, PartialEq)]
pub struct Repo {
    pub id: u64,
    pub login: String,
    pub full_name: String,
    pub html_url: String,
    pub git_url: String,
    pub fork: bool,
}

} // verus!
