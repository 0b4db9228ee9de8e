use vstd::prelude::*;

use crate::errors::Errors;

verus! {

/// The all-zero byte sequence of the given length.
pub open spec fn zero_bytes_spec(n: nat) -> Seq<u8> {
    Seq::new(n, |i: int| 0u8)
}

/// Builds an all-zero byte buffer of the given length.
pub fn zero_bytes(n: usize) -> (r: Vec<u8>)
    ensures
        r@ == zero_bytes_spec(n as nat),
{
    let mut output: Vec<u8> = Vec::new();
    let mut i: usize = 0;
    while i < n
        invariant
            i <= n,
            output@ == zero_bytes_spec(i as nat),
        decreases n - i,
    {
        output.push(0u8);
        proof {
            assert(output@ =~= zero_bytes_spec((i + 1) as nat));
        }
        i = i + 1;
    }
    output
}

/// Appends every byte of `src` to `dst`, in order.
pub fn extend_bytes(dst: &mut Vec<u8>, src: &[u8])
    ensures
        final(dst)@ == old(dst)@ + src@,
{
    let n: usize = src.len();
    let mut i: usize = 0;
    while i < n
        invariant
            i <= n,
            n == src@.len(),
            dst@ == old(dst)@ + src@.take(i as int),
        decreases n - i,
    {
        dst.push(src[i]);
        proof {
            assert(dst@ =~= old(dst)@ + src@.take(i + 1));
        }
        i = i + 1;
    }
    proof {
        assert(old(dst)@ + src@.take(n as int) =~= old(dst)@ + src@);
    }
}

/// An owned copy of a byte slice.
pub fn copy_bytes(src: &[u8]) -> (r: Vec<u8>)
    ensures
        r@ == src@,
{
    let mut output: Vec<u8> = Vec::new();
    extend_bytes(&mut output, src);
    proof {
        assert(output@ =~= src@);
    }
    output
}

/// The concatenation of two byte slices as a fresh buffer.
pub fn concat_bytes(first: &[u8], second: &[u8]) -> (r: Vec<u8>)
    ensures
        r@ == first@ + second@,
{
    let mut output: Vec<u8> = Vec::new();
    extend_bytes(&mut output, first);
    extend_bytes(&mut output, second);
    proof {
        assert(output@ =~= first@ + second@);
    }
    output
}

/// The bytewise XOR of two equal-length byte sequences.
pub open spec fn xor_spec(a: Seq<u8>, b: Seq<u8>) -> Seq<u8> {
    Seq::new(a.len(), |i: int| a[i] ^ b[i])
}

/// XORs two byte slices of equal length; unequal lengths are rejected.
pub fn xor_bytes(param_1: &[u8], param_2: &[u8]) -> (r: Result<Vec<u8>, Errors>)
    ensures
        param_1@.len() == param_2@.len() ==> (r matches Ok(v) && v@ == xor_spec(param_1@, param_2@)),
        param_1@.len() != param_2@.len() ==> (r matches Err(e) && (e matches Errors::XORLengthMismatch(_))),
{
    if param_1.len() != param_2.len() {
        return Err(Errors::XORLengthMismatch(String::from_str(
            "Cannot XOR bytes of unequal length.",
        )));
    }

    let n: usize = param_1.len();
    let mut output: Vec<u8> = Vec::new();
    let mut i: usize = 0;
    while i < n
        invariant
            i <= n,
            n == param_1@.len() == param_2@.len(),
            output@ == xor_spec(param_1@, param_2@).take(i as int),
        decreases n - i,
    {
        output.push(param_1[i] ^ param_2[i]);
        proof {
            assert(output@ =~= xor_spec(param_1@, param_2@).take(i + 1));
        }
        i = i + 1;
    }
    proof {
        assert(output@ =~= xor_spec(param_1@, param_2@));
    }
    Ok(output)
}

} // verus!
