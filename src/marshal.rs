use vstd::prelude::*;

use crate::error::VerifyError;

verus! {

/// A caller-supplied buffer is usable when it is present and non-empty.
pub open spec fn readable(mem: Option<&[u8]>) -> bool {
    match mem {
        Some(s) => s@.len() > 0,
        None => false,
    }
}

/// The bytes of a caller-supplied buffer (empty when it is absent).
pub open spec fn contents(mem: Option<&[u8]>) -> Seq<u8> {
    match mem {
        Some(s) => s@,
        None => Seq::empty(),
    }
}

/// Copies `s[start..end]` into a fresh vector.
pub fn copy_range(s: &[u8], start: usize, end: usize) -> (r: Vec<u8>)
    requires
        start <= end <= s@.len(),
    ensures
        r@ == s@.subrange(start as int, end as int),
{
    let mut r: Vec<u8> = Vec::with_capacity(end - start);
    let mut i: usize = start;
    while i < end
        invariant
            start <= i <= end <= s@.len(),
            r@ == s@.subrange(start as int, i as int),
        decreases end - i,
    {
        r.push(s[i]);
        i = i + 1;
        assert(r@ =~= s@.subrange(start as int, i as int));
    }
    r
}

/// Materialises an owned copy of a caller-supplied buffer.
///
/// `None` stands for a null pointer. An absent or zero-length buffer is
/// never a valid key, proof or key array, and is refused with
/// `InvalidInput`; otherwise exactly its bytes are copied.
pub fn read_slice(mem: Option<&[u8]>) -> (r: Result<Vec<u8>, VerifyError>)
    ensures
        readable(mem) <==> r is Ok,
        r is Ok ==> r->Ok_0@ == contents(mem),
        !readable(mem) ==> r == Err::<Vec<u8>, VerifyError>(VerifyError::InvalidInput),
{
    match mem {
        Some(s) => {
            if s.len() == 0 {
                Err(VerifyError::InvalidInput)
            } else {
                let v = copy_range(s, 0, s.len());
                assert(v@ =~= s@);
                Ok(v)
            }
        },
        None => Err(VerifyError::InvalidInput),
    }
}

} // verus!
