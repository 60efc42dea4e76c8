//! ASCII case-insensitive comparison, byte by byte.

use vstd::prelude::*;
use vstd::string::StringSliceAdditionalSpecFns;

verus! {

/// An ASCII upper-case letter folded to lower case; any other byte as it is.
pub open spec fn lower_byte(b: u8) -> u8 {
    if 65 <= b && b <= 90 {
        (b + 32) as u8
    } else {
        b
    }
}

/// Every byte of `s` folded to ASCII lower case.
pub open spec fn lower_bytes(s: Seq<u8>) -> Seq<u8> {
    s.map_values(|b: u8| lower_byte(b))
}

/// Executable form of `lower_byte`.
fn lower_byte_exec(b: u8) -> (r: u8)
    ensures
        r == lower_byte(b),
{
    if 65 <= b && b <= 90 {
        b + 32
    } else {
        b
    }
}

/// Do the two strings hold the same bytes up to ASCII case?
pub fn eq_ignore_ascii(a: &str, b: &str) -> (r: bool)
    ensures
        r == (lower_bytes(a.spec_bytes()) == lower_bytes(b.spec_bytes())),
{
    let ab = a.as_bytes();
    let bb = b.as_bytes();
    let n = ab.len();
    if n != bb.len() {
        proof {
            assert(lower_bytes(a.spec_bytes()).len() != lower_bytes(b.spec_bytes()).len());
        }
        return false;
    }
    let mut i: usize = 0;
    while i < n
        invariant
            n == ab@.len(),
            n == bb@.len(),
            ab@ == a.spec_bytes(),
            bb@ == b.spec_bytes(),
            0 <= i <= n,
            forall|k: int| 0 <= k < i ==> lower_byte(ab@[k]) == lower_byte(bb@[k]),
        decreases n - i,
    {
        if lower_byte_exec(ab[i]) != lower_byte_exec(bb[i]) {
            proof {
                assert(lower_bytes(a.spec_bytes())[i as int] != lower_bytes(
                    b.spec_bytes(),
                )[i as int]);
            }
            return false;
        }
        i += 1;
    }
    proof {
        assert(lower_bytes(a.spec_bytes()) =~= lower_bytes(b.spec_bytes()));
    }
    true
}

} // verus!
