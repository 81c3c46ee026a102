//! The line-record grammar of the incremental porcelain blame format.
//!
//! One record shape is recognized: a 40-character lowercase hexadecimal
//! revision identifier, a space, a decimal original line number, a
//! space, a decimal final line number, a space, a decimal count, and a
//! terminating newline. Every other line of the format is filtered out,
//! never reported as an error.

use vstd::prelude::*;
use vstd::slice::{slice_subrange, slice_to_vec};
use vstd::string::StringSliceAdditionalSpecFns;

use crate::revision::{is_hex_byte, is_rev_id_bytes, RevisionId};

verus! {

/// One byte of ASCII decimal: `0`-`9`.
pub open spec fn is_dec_byte(b: u8) -> bool {
    48 <= b && b <= 57
}

/// The number written by a run of ASCII decimal digits, most
/// significant digit first.
pub open spec fn dec_value(s: Seq<u8>) -> nat
    decreases s.len(),
{
    if s.len() == 0 {
        0
    } else {
        (dec_value(s.drop_last()) * 10 + (s.last() - 48)) as nat
    }
}

/// The first position at or after `i` that does not hold a decimal
/// digit (or the end of the line).
pub open spec fn skip_digits(s: Seq<u8>, i: int) -> int
    decreases s.len() - i,
{
    if i < s.len() && is_dec_byte(s[i]) {
        skip_digits(s, i + 1)
    } else {
        i
    }
}

pub proof fn lemma_skip_digits(s: Seq<u8>, i: int)
    requires
        0 <= i <= s.len(),
    ensures
        i <= skip_digits(s, i) <= s.len(),
        forall|k: int| i <= k < skip_digits(s, i) ==> is_dec_byte(s[k]),
        skip_digits(s, i) < s.len() ==> !is_dec_byte(s[skip_digits(s, i)]),
    decreases s.len() - i,
{
    if i < s.len() && is_dec_byte(s[i]) {
        lemma_skip_digits(s, i + 1);
    }
}

/// What one raw line of blame output means: `None` for every line that
/// does not have the record shape; otherwise the 40 hexadecimal bytes
/// of the revision identifier and the value of the original line
/// number field.
pub open spec fn spec_parse(s: Seq<u8>) -> Option<(Seq<u8>, nat)> {
    if s.len() < 41 {
        None
    } else if !(is_rev_id_bytes(s.subrange(0, 40)) && s[40] == 32) {
        None
    } else {
        let a = skip_digits(s, 41);
        if a == 41 || a >= s.len() || s[a] != 32 {
            None
        } else {
            let b = skip_digits(s, a + 1);
            if b == a + 1 || b >= s.len() || s[b] != 32 {
                None
            } else {
                let c = skip_digits(s, b + 1);
                if c == b + 1 || c != s.len() - 1 || s[c] != 10 {
                    None
                } else {
                    Some((s.subrange(0, 40), dec_value(s.subrange(41, a))))
                }
            }
        }
    }
}

/// A parsed record: which revision last touched which original line.
/// Transient; a session consumes it into its cache at once.
pub struct BlameLine {
    pub oid: RevisionId,
    pub original_lineno: usize,
}

fn skip_digits_exec(b: &[u8], start: usize) -> (r: usize)
    requires
        start <= b@.len(),
    ensures
        r as int == skip_digits(b@, start as int),
        start <= r <= b@.len(),
{
    let n: usize = b.len();
    let mut i: usize = start;
    loop
        invariant
            start <= i <= n,
            n == b@.len(),
            skip_digits(b@, start as int) == skip_digits(b@, i as int),
        decreases n - i,
    {
        if i >= n {
            return i;
        }
        let c = b[i];
        if !(48 <= c && c <= 57) {
            return i;
        }
        proof {
            assert(skip_digits(b@, i as int) == skip_digits(b@, i + 1 as int));
        }
        i += 1;
    }
}

fn read_decimal(b: &[u8], start: usize, end: usize) -> (r: Option<usize>)
    requires
        start <= end <= b@.len(),
        forall|j: int| start <= j < end ==> is_dec_byte(b@[j]),
    ensures
        match r {
            Some(v) => v as nat == dec_value(b@.subrange(start as int, end as int)),
            None => dec_value(b@.subrange(start as int, end as int)) > usize::MAX,
        },
{
    let mut i: usize = start;
    let mut val: usize = 0;
    let mut overflow: bool = false;
    while i < end
        invariant
            start <= i <= end <= b@.len(),
            forall|j: int| start <= j < end ==> is_dec_byte(b@[j]),
            !overflow ==> val as nat == dec_value(b@.subrange(start as int, i as int)),
            overflow ==> dec_value(b@.subrange(start as int, i as int)) > usize::MAX,
        decreases end - i,
    {
        let ghost prefix = b@.subrange(start as int, i as int);
        let ghost extended = b@.subrange(start as int, i + 1);
        proof {
            assert(extended.drop_last() =~= prefix);
            assert(extended.last() == b@[i as int]);
        }
        let c = b[i];
        let d: usize = (c - 48) as usize;
        if overflow {
            proof {
                assert(dec_value(extended) == dec_value(prefix) * 10 + (c - 48));
                assert(dec_value(prefix) * 10 >= dec_value(prefix)) by (nonlinear_arith)
                    requires dec_value(prefix) >= 0;
            }
        } else {
            let limit: usize = (usize::MAX - d) / 10;
            if val > limit {
                overflow = true;
                proof {
                    assert(dec_value(prefix) * 10 + d > usize::MAX) by (nonlinear_arith)
                        requires
                            dec_value(prefix) > (usize::MAX - d) / 10,
                            0 <= d <= 9,
                    ;
                }
            } else {
                proof {
                    assert(val * 10 + d <= usize::MAX) by (nonlinear_arith)
                        requires
                            val <= (usize::MAX - d) / 10,
                            0 <= d <= 9,
                            val >= 0,
                    ;
                }
                val = val * 10 + d;
            }
        }
        i += 1;
    }
    if overflow {
        None
    } else {
        Some(val)
    }
}

impl BlameLine {
    /// Reads one raw line of blame output. Yields a record exactly for
    /// lines of the record shape whose original line number fits the
    /// machine word; anything else is filtered out, never an error.
    pub fn new(line: &str) -> (r: Option<BlameLine>)
        ensures
            match r {
                Some(bl) => {
                    &&& spec_parse(line.spec_bytes()) matches Some(p)
                    &&& bl.oid@ == p.0
                    &&& bl.oid.wf()
                    &&& bl.original_lineno as nat == p.1
                },
                None => match spec_parse(line.spec_bytes()) {
                    Some(p) => p.1 > usize::MAX,
                    None => true,
                },
            },
    {
        let b = line.as_bytes();
        let n: usize = b.len();
        if n < 41 {
            return None;
        }
        let mut i: usize = 0;
        while i < 40
            invariant
                b@ == line.spec_bytes(),
                b@.len() >= 41,
                0 <= i <= 40,
                forall|j: int| 0 <= j < i ==> is_hex_byte(b@[j]),
            decreases 40 - i,
        {
            let c = b[i];
            if !((48 <= c && c <= 57) || (97 <= c && c <= 102)) {
                proof {
                    assert(!is_hex_byte(b@.subrange(0, 40)[i as int]));
                }
                return None;
            }
            i += 1;
        }
        proof {
            assert(is_rev_id_bytes(b@.subrange(0, 40))) by {
                assert(forall|j: int| 0 <= j < 40 ==> b@.subrange(0, 40)[j] == b@[j]);
            }
        }
        if b[40] != 32 {
            return None;
        }
        let a = skip_digits_exec(b, 41);
        if a == 41 || a == n {
            return None;
        }
        if b[a] != 32 {
            return None;
        }
        let a2 = skip_digits_exec(b, a + 1);
        if a2 == a + 1 || a2 == n {
            return None;
        }
        if b[a2] != 32 {
            return None;
        }
        let a3 = skip_digits_exec(b, a2 + 1);
        if a3 == a2 + 1 || a3 != n - 1 {
            return None;
        }
        if b[a3] != 10 {
            return None;
        }
        proof {
            lemma_skip_digits(b@, 41);
        }
        let lineno = match read_decimal(b, 41, a) {
            Some(v) => v,
            None => {
                return None;
            },
        };
        let hex = slice_subrange(b, 0, 40);
        let oid = RevisionId::from_bytes(slice_to_vec(hex));
        Some(BlameLine { oid, original_lineno: lineno })
    }
}

} // verus!
