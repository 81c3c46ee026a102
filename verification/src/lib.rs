//! A streaming, lazily-resolving reader over the incremental porcelain
//! output of a version-control blame tool.
//!
//! The library holds the verified core: the record grammar of the
//! incremental format, the session cache that maps line numbers to
//! revision identifiers, and the exact argument list handed to the
//! external tool. Spawning the tool and pumping its output belong to
//! the unverified shell around this crate.

use vstd::prelude::*;

mod args;
mod parser;
mod repo;
mod revision;
mod session;

pub use args::{blame_args, since_arg};
pub use parser::BlameLine;
pub use repo::Repo;
pub use revision::RevisionId;
pub use session::{scan_exhausted, Error, GitBlame};

verus! {

/// Relies on String::push: appends exactly the one given character.
pub assume_specification[ String::push ](s: &mut String, c: char)
    ensures
        final(s)@ == old(s)@.push(c),
;

} // verus!
