//! The fixed-size codec: the single point where an untrusted buffer's length
//! is checked before its bytes may reach the cryptographic engine. Any
//! mismatch is a hard failure naming the field and both widths; nothing is
//! truncated or padded.

use crate::errors::ApiError;
use crate::errors::ErrorModel;
use vstd::prelude::*;

verus! {

/// The error produced when `bytes` does not have width `expected` in the
/// field named `field`.
pub open spec fn size_mismatch(field: Seq<char>, expected: nat, actual: nat) -> ErrorModel {
    ErrorModel::SizeMismatch { field, expected, actual }
}

/// Copy a byte buffer.
pub fn copy_bytes(src: &Vec<u8>) -> (out: Vec<u8>)
    ensures
        out@ == src@,
{
    let mut out: Vec<u8> = Vec::new();
    let mut i: usize = 0;
    while i < src.len()
        invariant
            i <= src@.len(),
            out@.len() == i,
            forall|j: int| 0 <= j < i ==> out@[j] == src@[j],
        decreases src@.len() - i,
    {
        out.push(src[i]);
        i = i + 1;
    }
    proof {
        assert(out@ =~= src@);
    }
    out
}

/// Accept `bytes` only at exactly the width `expected`, returning a copy;
/// reject any other length with a size mismatch naming `field`.
pub fn to_fixed(bytes: &Vec<u8>, expected: usize, field: &str) -> (r: Result<Vec<u8>, ApiError>)
    ensures
        r is Ok <==> bytes@.len() == expected,
        r matches Ok(v) ==> v@ == bytes@,
        r matches Err(e) ==> e@ == size_mismatch(field@, expected as nat, bytes@.len()),
{
    if bytes.len() == expected {
        Ok(copy_bytes(bytes))
    } else {
        Err(
            ApiError::SizeMismatch {
                field: String::from_str(field),
                expected,
                actual: bytes.len(),
            },
        )
    }
}

/// Append every byte of `src` to `out`.
pub fn append_bytes(out: &mut Vec<u8>, src: &Vec<u8>)
    ensures
        final(out)@ == old(out)@ + src@,
{
    let mut i: usize = 0;
    while i < src.len()
        invariant
            i <= src@.len(),
            out@.len() == old(out)@.len() + i,
            out@ == old(out)@ + src@.subrange(0, i as int),
        decreases src@.len() - i,
    {
        out.push(src[i]);
        proof {
            assert(old(out)@ + src@.subrange(0, i as int) + seq![src@[i as int]] =~= old(out)@
                + src@.subrange(0, i + 1));
        }
        i = i + 1;
    }
    proof {
        assert(src@.subrange(0, src@.len() as int) =~= src@);
    }
}

/// As `to_fixed`, but only checks the width without copying.
pub fn check_width(bytes: &Vec<u8>, expected: usize, field: &str) -> (r: Result<(), ApiError>)
    ensures
        r is Ok <==> bytes@.len() == expected,
        r matches Err(e) ==> e@ == size_mismatch(field@, expected as nat, bytes@.len()),
{
    if bytes.len() == expected {
        Ok(())
    } else {
        Err(
            ApiError::SizeMismatch {
                field: String::from_str(field),
                expected,
                actual: bytes.len(),
            },
        )
    }
}

} // verus!
