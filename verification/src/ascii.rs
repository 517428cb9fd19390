//! ASCII case folding, used to normalize statement text into cache keys.

use vstd::prelude::*;
use vstd::std_specs::cmp::PartialEqSpec;

verus! {

/// ASCII code of `A`, the first uppercase letter.
pub const UPPER_A: u8 = 65;

/// ASCII code of `Z`, the last uppercase letter.
pub const UPPER_Z: u8 = 90;

/// Distance between an ASCII uppercase letter and its lowercase form.
pub const CASE_OFFSET: u8 = 32;

/// The ASCII lowercase image of one byte.
pub open spec fn lower_byte(b: u8) -> u8 {
    if UPPER_A <= b && b <= UPPER_Z {
        (b + CASE_OFFSET) as u8
    } else {
        b
    }
}

/// The ASCII lowercase image of a byte sequence.
pub open spec fn lower(s: Seq<u8>) -> Seq<u8> {
    s.map_values(|b: u8| lower_byte(b))
}

/// Case-folds `v` to lowercase ASCII, byte by byte.
pub fn to_ascii_lowercase(v: &Vec<u8>) -> (r: Vec<u8>)
    ensures
        r@ == lower(v@),
{
    let mut r: Vec<u8> = Vec::new();
    for i in 0..v.len()
        invariant
            r@ == lower(v@.take(i as int)),
    {
        let b = v[i];
        if b >= UPPER_A && b <= UPPER_Z {
            r.push(b + CASE_OFFSET);
        } else {
            r.push(b);
        }
        proof {
            assert(v@.take(i + 1) =~= v@.take(i as int).push(v@[i as int]));
            assert(lower(v@.take(i + 1)) =~= lower(v@.take(i as int)).push(
                lower_byte(v@[i as int]),
            ));
        }
    }
    proof {
        assert(v@.take(v@.len() as int) =~= v@);
    }
    r
}

/// Compares two byte vectors for equality of their contents.
pub fn bytes_eq(a: &Vec<u8>, b: &Vec<u8>) -> (r: bool)
    ensures
        r == (a@ == b@),
{
    let r = *a == *b;
    proof {
        if r {
            assert(a@ =~= b@);
        } else if a@ == b@ {
            assert(a.eq_spec(b)) by {
                assert(forall|i: int| 0 <= i < a@.len() ==> a@[i] == b@[i]);
            }
            assert(false);
        }
    }
    r
}

/// Case folding is idempotent: folding an already folded sequence changes
/// nothing.
pub proof fn lemma_lower_idempotent(s: Seq<u8>)
    ensures
        lower(lower(s)) == lower(s),
{
    assert(lower(lower(s)) =~= lower(s));
}

} // verus!
