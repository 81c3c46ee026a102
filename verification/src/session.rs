//! The query session: a cache of resolved line numbers, grown by
//! scanning blame output one line at a time.
//!
//! The session is the decision half of the streaming reader. The shell
//! that owns the external process pulls raw lines from its output and
//! hands each one to [`GitBlame::feed_line`]; when the output is
//! exhausted, [`scan_exhausted`] decides between "no blame entry" and a
//! failure, from what the error stream held. The cache never shrinks
//! and never reassigns a resolved line to a different revision.

use std::collections::HashMap;

use vstd::prelude::*;
use vstd::string::StringSliceAdditionalSpecFns;

use crate::parser::{spec_parse, BlameLine};
use crate::revision::{is_rev_id_bytes, RevisionId};

verus! {

broadcast use vstd::std_specs::hash::group_hash_axioms;

/// How a query session can fail.
pub enum Error {
    /// The external blame tool could not be launched.
    ProcessSpawnError(String),
    /// An output stream could not be captured after the spawn.
    StreamCaptureError(String),
    /// The tool ran but wrote diagnostic text on its error stream.
    BlameError(String),
    /// Reading one of the streams failed.
    IoError(String),
}

/// Every revision the cache holds has the identifier shape.
pub open spec fn rev_map_wf(m: Map<usize, Seq<u8>>) -> bool {
    forall|k: usize| m.contains_key(k) ==> is_rev_id_bytes(#[trigger] m[k])
}

/// What scanning one raw line does to the cache: a line of the record
/// shape resolves its original line number, first writer wins; every
/// other line leaves the cache unchanged.
pub open spec fn step(m: Map<usize, Seq<u8>>, line: Seq<u8>) -> Map<usize, Seq<u8>> {
    match spec_parse(line) {
        Some(p) => if p.1 <= usize::MAX && !m.contains_key(p.1 as usize) {
            m.insert(p.1 as usize, p.0)
        } else {
            m
        },
        None => m,
    }
}

/// The cache after scanning a whole sequence of raw lines, in order.
pub open spec fn run(m: Map<usize, Seq<u8>>, lines: Seq<Seq<u8>>) -> Map<usize, Seq<u8>>
    decreases lines.len(),
{
    if lines.len() == 0 {
        m
    } else {
        run(step(m, lines[0]), lines.drop_first())
    }
}

/// One blame query session: the mapping from original line number to
/// the revision that last touched it, as far as the output has been
/// scanned. Viewed as a map from line number to identifier bytes.
pub struct GitBlame {
    line_map: HashMap<usize, RevisionId>,
}

impl View for GitBlame {
    type V = Map<usize, Seq<u8>>;

    closed spec fn view(&self) -> Map<usize, Seq<u8>> {
        self.line_map@.map_values(|r: RevisionId| r@)
    }
}

impl GitBlame {
    /// A fresh session: nothing resolved yet.
    pub fn new() -> (s: GitBlame)
        ensures
            s@ == Map::<usize, Seq<u8>>::empty(),
    {
        let s = GitBlame { line_map: HashMap::new() };
        proof {
            assert(s@ =~= Map::<usize, Seq<u8>>::empty());
        }
        s
    }

    /// Looks a line number up in the cache. No scanning happens here:
    /// the answer comes from what earlier feeding resolved, so a
    /// resolved line is answered without touching the process again.
    pub fn get_line(&self, lineno: usize) -> (r: Option<RevisionId>)
        ensures
            match r {
                Some(rev) => self@.contains_key(lineno) && rev@ == self@[lineno] && (rev_map_wf(
                    self@,
                ) ==> rev.wf()),
                None => !self@.contains_key(lineno),
            },
    {
        match self.line_map.get(&lineno) {
            Some(rev) => {
                proof {
                    assert(self@.contains_key(lineno));
                    assert(self@[lineno] == rev@);
                }
                Some(rev.clone())
            },
            None => None,
        }
    }

    /// Scans one raw line of blame output. The cache becomes
    /// `step(old cache, line)`: a record line resolves its line number
    /// unless that number is already resolved (first writer wins).
    /// Returns the revision exactly when the line is a record for the
    /// queried line number — the scan can stop there.
    pub fn feed_line(&mut self, line: &str, target: usize) -> (r: Option<RevisionId>)
        ensures
            final(self)@ == step(old(self)@, line.spec_bytes()),
            match r {
                Some(rev) => {
                    &&& spec_parse(line.spec_bytes()) matches Some(p)
                    &&& p.1 == target as nat
                    &&& final(self)@.contains_key(target)
                    &&& rev@ == final(self)@[target]
                    &&& (rev_map_wf(old(self)@) ==> rev.wf())
                },
                None => !(spec_parse(line.spec_bytes()) matches Some(p) && p.1 == target as nat),
            },
    {
        match BlameLine::new(line) {
            Some(bl) => {
                let lineno = bl.original_lineno;
                if !self.line_map.contains_key(&lineno) {
                    self.line_map.insert(lineno, bl.oid);
                    proof {
                        assert(self@ =~= step(old(self)@, line.spec_bytes()));
                    }
                } else {
                    proof {
                        assert(self@ =~= step(old(self)@, line.spec_bytes()));
                    }
                }
                if lineno == target {
                    match self.line_map.get(&target) {
                        Some(rev) => {
                            proof {
                                assert(self@.contains_key(target));
                                assert(self@[target] == rev@);
                            }
                            Some(rev.clone())
                        },
                        None => {
                            proof {
                                assert(false);
                            }
                            None
                        },
                    }
                } else {
                    None
                }
            },
            None => None,
        }
    }
}

/// The decision at end of output: diagnostic text on the error stream
/// means the scan failed with that text; an empty error stream means
/// the queried line genuinely has no blame entry in the window, which
/// is a successful lookup with no result.
pub fn scan_exhausted(stderr_text: String) -> (r: Result<Option<RevisionId>, Error>)
    ensures
        stderr_text@.len() == 0 ==> (r matches Ok(o) && o is None),
        stderr_text@.len() > 0 ==> (r matches Err(e) && e matches Error::BlameError(t) && t@
            == stderr_text@),
{
    if stderr_text.as_str().is_empty() {
        Ok(None)
    } else {
        Err(Error::BlameError(stderr_text))
    }
}

/// Cache monotonicity: once the cache resolves line `n` to a revision,
/// scanning any further output leaves `n` resolved to that same
/// revision — the mapping never shrinks and never reassigns a key.
pub proof fn lemma_cache_monotonic(m: Map<usize, Seq<u8>>, lines: Seq<Seq<u8>>, n: usize)
    requires
        m.contains_key(n),
    ensures
        run(m, lines).contains_key(n),
        run(m, lines)[n] == m[n],
    decreases lines.len(),
{
    if lines.len() > 0 {
        lemma_cache_monotonic(step(m, lines[0]), lines.drop_first(), n);
    }
}

/// Early termination: as soon as a scanned line carries the queried
/// line number's record, the cache resolves that line number, and
/// whatever output would follow cannot change the answer — so the scan
/// may stop without reading it.
pub proof fn lemma_early_termination(
    m: Map<usize, Seq<u8>>,
    line: Seq<u8>,
    rest: Seq<Seq<u8>>,
    target: usize,
)
    requires
        spec_parse(line) matches Some(p) && p.1 == target as nat,
    ensures
        step(m, line).contains_key(target),
        run(step(m, line), rest) == run(m, seq![line] + rest),
        run(m, seq![line] + rest)[target] == step(m, line)[target],
{
    let all = seq![line] + rest;
    assert(all[0] == line);
    assert(all.drop_first() =~= rest);
    lemma_cache_monotonic(step(m, line), rest, target);
}

/// Cache validity: scanning one line preserves the shape invariant of
/// the cache — every resolved revision is 40 bytes of lowercase
/// hexadecimal, because only record lines resolve anything.
pub proof fn lemma_step_preserves_wf(m: Map<usize, Seq<u8>>, line: Seq<u8>)
    requires
        rev_map_wf(m),
    ensures
        rev_map_wf(step(m, line)),
{
}

/// Cache validity over a whole scan: a session that starts well-formed
/// stays well-formed, however much output it reads.
pub proof fn lemma_run_preserves_wf(m: Map<usize, Seq<u8>>, lines: Seq<Seq<u8>>)
    requires
        rev_map_wf(m),
    ensures
        rev_map_wf(run(m, lines)),
    decreases lines.len(),
{
    if lines.len() > 0 {
        lemma_step_preserves_wf(m, lines[0]);
        lemma_run_preserves_wf(step(m, lines[0]), lines.drop_first());
    }
}

/// Determinism: the cache a session ends with is a function of the
/// scanned output alone, so two sessions fed identical output resolve
/// every line number identically.
pub proof fn lemma_determinism(
    m1: Map<usize, Seq<u8>>,
    m2: Map<usize, Seq<u8>>,
    lines1: Seq<Seq<u8>>,
    lines2: Seq<Seq<u8>>,
)
    requires
        m1 == m2,
        lines1 == lines2,
    ensures
        run(m1, lines1) == run(m2, lines2),
{
}

} // verus!
