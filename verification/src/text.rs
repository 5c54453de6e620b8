//! Texts.

use vstd::prelude::*;

verus! {

/// Whether two texts hold the same characters.
pub fn same_text(a: &str, b: &str) -> (r: bool)
    ensures
        r == (a@ == b@),
{
    let left = a.as_bytes();
    let right = b.as_bytes();
    proof {
        vstd::utf8::encode_utf8_decode_utf8(a@);
        vstd::utf8::encode_utf8_decode_utf8(b@);
    }
    if left.len() != right.len() {
        assert(a@ != b@) by {
            if a@ == b@ {
                assert(left@ == right@);
            }
        }
        return false;
    }
    let mut i: usize = 0;
    while i < left.len()
        invariant
            i <= left.len(),
            left@.len() == right@.len(),
            left@ == vstd::utf8::encode_utf8(a@),
            right@ == vstd::utf8::encode_utf8(b@),
            vstd::utf8::decode_utf8(left@) == a@,
            vstd::utf8::decode_utf8(right@) == b@,
            forall|k: int| 0 <= k < i ==> left@[k] == right@[k],
        decreases left.len() - i,
    {
        if left[i] != right[i] {
            assert(a@ != b@) by {
                if a@ == b@ {
                    assert(left@[i as int] == right@[i as int]);
                }
            }
            return false;
        }
        i += 1;
    }
    assert(left@ =~= right@);
    true
}

} // verus!
