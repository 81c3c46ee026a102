//! The opaque revision identifier: a 40-character lowercase
//! hexadecimal content hash, held as its ASCII bytes and never
//! interpreted beyond that shape.

use vstd::prelude::*;
use vstd::slice::slice_to_vec;
use vstd::string::StringSliceAdditionalSpecFns;

verus! {

/// One byte of lowercase hexadecimal: `0`-`9` or `a`-`f`.
pub open spec fn is_hex_byte(b: u8) -> bool {
    (48 <= b && b <= 57) || (97 <= b && b <= 102)
}

/// The shape every revision identifier has: exactly 40 bytes of
/// lowercase hexadecimal.
pub open spec fn is_rev_id_bytes(s: Seq<u8>) -> bool {
    s.len() == 40 && forall|i: int| 0 <= i < s.len() ==> is_hex_byte(s[i])
}

/// ASCII bytes read as characters, one for one.
pub open spec fn hex_chars(s: Seq<u8>) -> Seq<char> {
    Seq::new(s.len(), |i: int| s[i] as char)
}

/// A fixed-format content hash naming one historical snapshot.
/// Comparable and cloneable, never interpreted.
pub struct RevisionId {
    bytes: Vec<u8>,
}

impl View for RevisionId {
    type V = Seq<u8>;

    closed spec fn view(&self) -> Seq<u8> {
        self.bytes@
    }
}

impl RevisionId {
    /// The internal invariant: the identifier is 40 bytes of
    /// lowercase hexadecimal.
    pub open spec fn wf(&self) -> bool {
        is_rev_id_bytes(self@)
    }

    /// Reads an identifier from its 40-character lowercase
    /// hexadecimal form; any other input is rejected.
    pub fn from_hex(s: &str) -> (r: Option<RevisionId>)
        ensures
            match r {
                Some(id) => id.wf() && id@ == s.spec_bytes() && is_rev_id_bytes(s.spec_bytes()),
                None => !is_rev_id_bytes(s.spec_bytes()),
            },
    {
        let b = s.as_bytes();
        if b.len() != 40 {
            return None;
        }
        let mut i: usize = 0;
        while i < 40
            invariant
                b@ == s.spec_bytes(),
                b@.len() == 40,
                0 <= i <= 40,
                forall|j: int| 0 <= j < i ==> is_hex_byte(b@[j]),
            decreases 40 - i,
        {
            let c = b[i];
            if !((48 <= c && c <= 57) || (97 <= c && c <= 102)) {
                return None;
            }
            i += 1;
        }
        Some(RevisionId { bytes: slice_to_vec(b) })
    }

    /// Wraps bytes already known to have the identifier shape.
    pub(crate) fn from_bytes(bytes: Vec<u8>) -> (r: RevisionId)
        requires
            is_rev_id_bytes(bytes@),
        ensures
            r@ == bytes@,
            r.wf(),
    {
        RevisionId { bytes }
    }

    /// The identifier's bytes, each an ASCII hexadecimal digit.
    pub fn as_bytes(&self) -> (r: &Vec<u8>)
        ensures
            r@ == self@,
    {
        &self.bytes
    }

    /// The identifier written back out as its hexadecimal characters.
    pub fn to_hex(&self) -> (s: String)
        ensures
            s@ == hex_chars(self@),
    {
        let mut s = String::new();
        let n = self.bytes.len();
        proof {
            assert(s@ =~= hex_chars(self@).subrange(0, 0));
        }
        let mut i: usize = 0;
        while i < n
            invariant
                n == self@.len(),
                0 <= i <= n,
                s@ == hex_chars(self@).subrange(0, i as int),
            decreases n - i,
        {
            let b = self.bytes[i];
            s.push(b as char);
            proof {
                assert(s@ =~= hex_chars(self@).subrange(0, i + 1));
            }
            i += 1;
        }
        proof {
            assert(hex_chars(self@).subrange(0, n as int) =~= hex_chars(self@));
        }
        s
    }
}

impl Clone for RevisionId {
    fn clone(&self) -> (r: Self)
        ensures
            r@ == self@,
    {
        RevisionId { bytes: slice_to_vec(self.bytes.as_slice()) }
    }
}

impl PartialEq for RevisionId {
    fn eq(&self, other: &Self) -> (r: bool) {
        let a = self.bytes.as_slice();
        let b = other.bytes.as_slice();
        if a.len() != b.len() {
            return false;
        }
        let mut i: usize = 0;
        while i < a.len()
            invariant
                a@ == self@,
                b@ == other@,
                a@.len() == b@.len(),
                0 <= i <= a@.len(),
                forall|j: int| 0 <= j < i ==> a@[j] == b@[j],
            decreases a@.len() - i,
        {
            if a[i] != b[i] {
                return false;
            }
            i += 1;
        }
        proof {
            assert(self@ =~= other@);
        }
        true
    }
}

impl vstd::std_specs::cmp::PartialEqSpecImpl for RevisionId {
    open spec fn obeys_eq_spec() -> bool {
        true
    }

    open spec fn eq_spec(&self, other: &Self) -> bool {
        self@ == other@
    }
}

} // verus!
