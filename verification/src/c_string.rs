//! Conversion of text to the zero-terminated form the engine reads.

use vstd::prelude::*;

verus! {

/// Whether some byte of `bytes` is zero.
pub open spec fn has_nul(bytes: Seq<u8>) -> bool {
    exists|i: int| 0 <= i < bytes.len() && bytes[i] == 0
}

/// Whether `at` is the offset of the first zero byte of `bytes`.
pub open spec fn is_first_nul(bytes: Seq<u8>, at: int) -> bool {
    &&& 0 <= at < bytes.len()
    &&& bytes[at] == 0
    &&& forall|j: int| 0 <= j < at ==> bytes[j] != 0
}

/// The offset of the first zero byte of `bytes`, where it holds one.
pub open spec fn first_nul(bytes: Seq<u8>) -> int {
    choose|at: int| is_first_nul(bytes, at)
}

/// The zero-terminated form of `bytes`.
pub open spec fn terminated(bytes: Seq<u8>) -> Seq<u8> {
    bytes.push(0)
}

/// Finds the first zero byte.
pub fn find_nul(bytes: &[u8]) -> (found: Option<usize>)
    ensures
        match found {
            Some(at) => is_first_nul(bytes@, at as int),
            None => !has_nul(bytes@),
        },
{
    let mut i: usize = 0;
    while i < bytes.len()
        invariant
            i <= bytes.len(),
            forall|j: int| 0 <= j < i ==> bytes@[j] != 0,
        decreases bytes.len() - i,
    {
        if bytes[i] == 0 {
            return Some(i);
        }
        i += 1;
    }
    None
}

/// Copies `bytes` and appends the terminating zero, or reports the offset of
/// the first zero byte that `bytes` already holds.
pub fn to_c_string(bytes: &[u8]) -> (converted: Result<Vec<u8>, usize>)
    ensures
        match converted {
            Ok(buffer) => !has_nul(bytes@) && buffer@ == terminated(bytes@),
            Err(at) => is_first_nul(bytes@, at as int),
        },
{
    match find_nul(bytes) {
        Some(at) => Err(at),
        None => {
            let mut buffer: Vec<u8> = Vec::new();
            let mut i: usize = 0;
            while i < bytes.len()
                invariant
                    i <= bytes.len(),
                    buffer@ == bytes@.take(i as int),
                decreases bytes.len() - i,
            {
                buffer.push(bytes[i]);
                proof {
                    assert(bytes@.take(i as int).push(bytes@[i as int]) =~= bytes@.take(i + 1));
                }
                i += 1;
            }
            proof {
                assert(bytes@.take(i as int) =~= bytes@);
            }
            buffer.push(0);
            Ok(buffer)
        },
    }
}

/// The offset at which a first zero byte is found is `first_nul`, and the
/// sequence then holds a zero byte.
pub proof fn lemma_first_nul(bytes: Seq<u8>, at: int)
    requires
        is_first_nul(bytes, at),
    ensures
        has_nul(bytes),
        first_nul(bytes) == at,
{
    lemma_first_nul_unique(bytes, at, first_nul(bytes));
}

/// A sequence has at most one first zero byte.
pub proof fn lemma_first_nul_unique(bytes: Seq<u8>, a: int, b: int)
    requires
        is_first_nul(bytes, a),
        is_first_nul(bytes, b),
    ensures
        a == b,
{
    if a < b {
        assert(bytes[a] != 0);
    } else if b < a {
        assert(bytes[b] != 0);
    }
}

} // verus!
