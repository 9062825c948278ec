//! ASCII case folding, used by the textual format selectors.

use vstd::prelude::*;

verus! {

/// The ASCII lower-case image of one byte.
pub open spec fn lower_byte(b: u8) -> u8 {
    if 65 <= b && b <= 90 {
        (b + 32) as u8
    } else {
        b
    }
}

/// The ASCII lower-case image of a byte sequence.
pub open spec fn lower_bytes(s: Seq<u8>) -> Seq<u8> {
    s.map_values(|b: u8| lower_byte(b))
}

fn lower_byte_exec(b: u8) -> (r: u8)
    ensures
        r == lower_byte(b),
{
    if 65 <= b && b <= 90 {
        b + 32
    } else {
        b
    }
}

/// Whether two byte sequences are equal up to ASCII case.
pub fn eq_ignore_ascii_case(a: &[u8], b: &[u8]) -> (r: bool)
    ensures
        r == (lower_bytes(a@) == lower_bytes(b@)),
{
    if a.len() != b.len() {
        assert(lower_bytes(a@).len() != lower_bytes(b@).len());
        return false;
    }
    let mut i: usize = 0;
    while i < a.len()
        invariant
            i <= a.len(),
            a.len() == b.len(),
            forall|k: int| 0 <= k < i ==> lower_byte(a@[k]) == lower_byte(b@[k]),
        decreases a.len() - i,
    {
        if lower_byte_exec(a[i]) != lower_byte_exec(b[i]) {
            assert(lower_bytes(a@)[i as int] != lower_bytes(b@)[i as int]);
            return false;
        }
        i += 1;
    }
    assert(lower_bytes(a@) =~= lower_bytes(b@));
    true
}

} // verus!
