//! Small executable helpers over strings.

use vstd::prelude::*;

verus! {

/// Equality of two string slices, stated over their character sequences.
pub fn str_eq(a: &str, b: &str) -> (r: bool)
    ensures
        r == (a@ == b@),
{
    let x: String = a.to_owned();
    let y: String = b.to_owned();
    x == y
}

/// Equality of two string slices without an early exit on the first
/// differing character: after the length check, the running time does not
/// depend on where the strings differ. Used to compare message
/// authentication digests without a timing side channel.
pub fn str_eq_fixed_time(a: &str, b: &str) -> (r: bool)
    ensures
        r == (a@ == b@),
{
    let n = a.unicode_len();
    let m = b.unicode_len();
    if n != m {
        proof {
            assert(a@ != b@);
        }
        return false;
    }
    proof {
        assert(a@.take(0) =~= b@.take(0));
    }
    let mut diff: u32 = 0;
    let mut i: usize = 0;
    while i < n
        invariant
            i <= n,
            n == a@.len(),
            n == b@.len(),
            (diff == 0) == (a@.take(i as int) == b@.take(i as int)),
        decreases n - i,
    {
        let ca = a.get_char(i);
        let cb = b.get_char(i);
        let ghost diff0 = diff;
        let x: u32 = ca as u32;
        let y: u32 = cb as u32;
        diff = diff | (x ^ y);
        proof {
            assert(((diff0 | (x ^ y)) == 0) == (diff0 == 0 && (x ^ y) == 0)) by (bit_vector);
            assert(((x ^ y) == 0) == (x == y)) by (bit_vector);
            assert((ca == cb) == (x == y));
            let t1 = a@.take(i as int + 1);
            let t2 = b@.take(i as int + 1);
            assert(t1.take(i as int) =~= a@.take(i as int));
            assert(t2.take(i as int) =~= b@.take(i as int));
            if t1 == t2 {
                assert(a@.take(i as int) == b@.take(i as int));
                assert(t1[i as int] == a@[i as int]);
                assert(t2[i as int] == b@[i as int]);
                assert(a@[i as int] == b@[i as int]);
            }
            if a@.take(i as int) == b@.take(i as int) && a@[i as int] == b@[i as int] {
                assert(t1 =~= t2);
            }
        }
        i += 1;
    }
    proof {
        assert(a@.take(n as int) =~= a@);
        assert(b@.take(n as int) =~= b@);
    }
    diff == 0
}

} // verus!
