//! Small pieces shared by every engine: cyclic modes and row shifting.
use vstd::prelude::*;

verus! {

/// A finite set of states that can step to a successor and a predecessor.
pub trait Mode: Sized {
    /// The state that follows `self`.
    spec fn next_spec(&self) -> Self;

    /// The state that precedes `self`.
    spec fn prev_spec(&self) -> Self;

    fn next(&self) -> (r: Self)
        ensures
            r == self.next_spec(),
    ;

    fn prev(&self) -> (r: Self)
        ensures
            r == self.prev_spec(),
    ;
}

/// Rows of `g` with every row shifted right by `shift` bits.
pub open spec fn shifted_rows(g: Seq<u8>, shift: u8) -> Seq<u8> {
    Seq::new(g.len(), |i: int| g[i] >> shift)
}

/// Shifts the first eight rows of `data` right by `shift` bits.
pub fn shift_bits(data: &mut [u8], shift: u8)
    requires
        old(data)@.len() == 8,
        shift < 8,
    ensures
        final(data)@ == shifted_rows(old(data)@, shift),
{
    let mut i: usize = 0;
    while i < 8
        invariant
            0 <= i <= 8,
            data@.len() == 8,
            old(data)@.len() == 8,
            shift < 8,
            forall|j: int| 0 <= j < i ==> data@[j] == old(data)@[j] >> shift,
            forall|j: int| i <= j < 8 ==> data@[j] == old(data)@[j],
        decreases 8 - i,
    {
        let v = data[i] >> shift;
        data[i] = v;
        i = i + 1;
    }
    proof {
        assert(data@ =~= shifted_rows(old(data)@, shift));
    }
}

} // verus!
