//! The exact argument list handed to the external blame tool: blame of
//! a given ancestor revision, score-suppressed, long-revision,
//! porcelain, incremental, restricted to a churn-cutoff window and to
//! one path.

use vstd::prelude::*;
use vstd::string::StringExecFns;

use crate::revision::{hex_chars, RevisionId};

verus! {

/// The character of one decimal digit value.
pub open spec fn digit_char(d: nat) -> char {
    ((48 + d) as u8) as char
}

/// The decimal rendering of a number, most significant digit first,
/// with no leading zeros (a single `0` for zero).
pub open spec fn dec_chars(n: nat) -> Seq<char>
    decreases n,
{
    if n < 10 {
        seq![digit_char(n)]
    } else {
        dec_chars(n / 10).push(digit_char(n % 10))
    }
}

/// Appends the decimal rendering of `n`.
fn push_dec(s: &mut String, n: u64)
    ensures
        final(s)@ == old(s)@ + dec_chars(n as nat),
    decreases n,
{
    if n >= 10 {
        push_dec(s, n / 10);
    }
    let d: u8 = (n % 10) as u8;
    s.push((48 + d) as char);
    proof {
        assert(final(s)@ =~= old(s)@ + dec_chars(n as nat));
    }
}

/// The time-window argument: `--since=<days>.days`.
pub fn since_arg(churn_cutoff: u64) -> (s: String)
    ensures
        s@ == "--since="@ + dec_chars(churn_cutoff as nat) + ".days"@,
{
    let mut s = String::from_str("--since=");
    push_dec(&mut s, churn_cutoff);
    let s = s.concat(".days");
    proof {
        assert(s@ =~= "--since="@ + dec_chars(churn_cutoff as nat) + ".days"@);
    }
    s
}

/// The argument list for the external tool, exactly as the blame
/// operation must invoke it: `blame <parent> -s -l -p --incremental
/// --since=<days>.days -- <path>`, to be run with the repository's
/// on-disk location as working directory.
pub fn blame_args(parent: &RevisionId, churn_cutoff: u64, old_path: &str) -> (args: Vec<String>)
    ensures
        args@.len() == 9,
        args@[0]@ == "blame"@,
        args@[1]@ == hex_chars(parent@),
        args@[2]@ == "-s"@,
        args@[3]@ == "-l"@,
        args@[4]@ == "-p"@,
        args@[5]@ == "--incremental"@,
        args@[6]@ == "--since="@ + dec_chars(churn_cutoff as nat) + ".days"@,
        args@[7]@ == "--"@,
        args@[8]@ == old_path@,
{
    let mut args: Vec<String> = Vec::new();
    args.push(String::from_str("blame"));
    args.push(parent.to_hex());
    args.push(String::from_str("-s"));
    args.push(String::from_str("-l"));
    args.push(String::from_str("-p"));
    args.push(String::from_str("--incremental"));
    args.push(since_arg(churn_cutoff));
    args.push(String::from_str("--"));
    args.push(String::from_str(old_path));
    args
}

} // verus!
