use vstd::prelude::*;
use crate::error::EscrowError;

verus! {

/// The unsigned value of a little-endian byte string.
pub open spec fn le_value(b: Seq<u8>) -> nat
    decreases b.len(),
{
    if b.len() == 0 {
        0
    } else {
        b[0] as nat + 256 * le_value(b.subrange(1, b.len() as int))
    }
}

/// 256 to the power `n`: one more than the largest value of `n` bytes.
pub open spec fn byte_bound(n: nat) -> nat
    decreases n,
{
    if n == 0 {
        1
    } else {
        256 * byte_bound((n - 1) as nat)
    }
}

/// The two's-complement reading of a 64-bit pattern.
pub open spec fn signed64(v: nat) -> int {
    if v < 0x8000_0000_0000_0000 {
        v as int
    } else {
        v - 0x1_0000_0000_0000_0000
    }
}

/// The `n` bytes of `s` that start at `pos`.
pub open spec fn field(s: Seq<u8>, pos: int, n: int) -> Seq<u8> {
    s.subrange(pos, pos + n)
}

pub proof fn lemma_le_value_step(s: Seq<u8>, a: int, e: int)
    requires
        0 <= a < e <= s.len(),
    ensures
        le_value(s.subrange(a, e)) == s[a] as nat + 256 * le_value(s.subrange(a + 1, e)),
{
    let sub = s.subrange(a, e);
    assert(sub.subrange(1, sub.len() as int) =~= s.subrange(a + 1, e));
}

pub proof fn lemma_le_value_bound(b: Seq<u8>)
    ensures
        le_value(b) < byte_bound(b.len()),
    decreases b.len(),
{
    if b.len() > 0 {
        lemma_le_value_bound(b.subrange(1, b.len() as int));
    }
}

pub proof fn lemma_byte_bound_mono(k: nat, n: nat)
    requires
        k <= n,
    ensures
        byte_bound(k) <= byte_bound(n),
    decreases n,
{
    if k < n {
        lemma_byte_bound_mono(k, (n - 1) as nat);
    }
}

pub proof fn lemma_byte_bound_8()
    ensures
        byte_bound(8) == 0x1_0000_0000_0000_0000,
{
    reveal_with_fuel(byte_bound, 9);
}

/// Reads the little-endian value of `n` bytes at `pos`.
fn le_word(data: &[u8], pos: usize, n: usize) -> (r: u64)
    requires
        n <= 8,
        pos + n <= data@.len(),
    ensures
        r as nat == le_value(field(data@, pos as int, n as int)),
{
    let len = data.len();
    let mut acc: u64 = 0;
    let mut i: usize = n;
    proof {
        assert(data@.subrange(pos + n, pos + n) =~= Seq::<u8>::empty());
        lemma_byte_bound_8();
    }
    while i > 0
        invariant
            i <= n <= 8,
            pos + n <= data@.len(),
            data@.len() == len,
            byte_bound(8) == 0x1_0000_0000_0000_0000,
            acc as nat == le_value(data@.subrange(pos + i, pos + n)),
            acc < byte_bound((n - i) as nat),
        decreases i,
    {
        proof {
            lemma_le_value_step(data@, pos + i - 1, pos + n as int);
            lemma_byte_bound_mono((n - i + 1) as nat, 8);
        }
        acc = acc * 256 + data[pos + i - 1] as u64;
        i = i - 1;
    }
    acc
}

/// Copies the `N` bytes at `*pos` and moves `*pos` past them; fails, leaving
/// `*pos` alone, when fewer than `N` bytes remain.
pub fn read_bytes<const N: usize>(data: &[u8], pos: &mut usize) -> (r: Result<[u8; N], EscrowError>)
    requires
        *old(pos) <= data@.len(),
    ensures
        *old(pos) + N <= data@.len() ==> r is Ok && r->Ok_0@ == field(data@, *old(pos) as int, N as int)
            && *final(pos) == *old(pos) + N,
        *old(pos) + N > data@.len() ==> r == Err::<[u8; N], EscrowError>(EscrowError::InvalidInstruction)
            && *final(pos) == *old(pos),
{
    if data.len() - *pos < N {
        return Err(EscrowError::InvalidInstruction);
    }
    let start = *pos;
    let len = data.len();
    let mut out = [0u8; N];
    let mut i: usize = 0;
    while i < N
        invariant
            start + N <= data@.len(),
            data@.len() == len,
            i <= N,
            out@.len() == N,
            forall|j: int| 0 <= j < i ==> out@[j] == data@[start + j],
        decreases N - i,
    {
        out[i] = data[start + i];
        i = i + 1;
    }
    assert(out@ =~= field(data@, start as int, N as int));
    *pos = start + N;
    Ok(out)
}

/// Reads a little-endian `u64` at `*pos`, as `read_bytes` moves over eight bytes.
pub fn read_u64_le(data: &[u8], pos: &mut usize) -> (r: Result<u64, EscrowError>)
    requires
        *old(pos) <= data@.len(),
    ensures
        *old(pos) + 8 <= data@.len() ==> r is Ok && r->Ok_0 as nat == le_value(field(data@, *old(pos) as int, 8))
            && *final(pos) == *old(pos) + 8,
        *old(pos) + 8 > data@.len() ==> r == Err::<u64, EscrowError>(EscrowError::InvalidInstruction)
            && *final(pos) == *old(pos),
{
    if data.len() - *pos < 8 {
        return Err(EscrowError::InvalidInstruction);
    }
    let v = le_word(data, *pos, 8);
    *pos = *pos + 8;
    Ok(v)
}

/// Reads a little-endian two's-complement `i64` at `*pos`.
pub fn read_i64_le(data: &[u8], pos: &mut usize) -> (r: Result<i64, EscrowError>)
    requires
        *old(pos) <= data@.len(),
    ensures
        *old(pos) + 8 <= data@.len() ==> r is Ok && r->Ok_0 as int == signed64(le_value(field(data@, *old(pos) as int, 8)))
            && *final(pos) == *old(pos) + 8,
        *old(pos) + 8 > data@.len() ==> r == Err::<i64, EscrowError>(EscrowError::InvalidInstruction)
            && *final(pos) == *old(pos),
{
    match read_u64_le(data, pos) {
        Ok(v) => {
            if v <= 0x7fff_ffff_ffff_ffff {
                Ok(v as i64)
            } else {
                let below: u64 = 0xffff_ffff_ffff_ffff - v;
                Ok(-(below as i64) - 1)
            }
        },
        Err(e) => Err(e),
    }
}

/// Reads a little-endian `u16` at `*pos`.
pub fn read_u16_le(data: &[u8], pos: &mut usize) -> (r: Result<u16, EscrowError>)
    requires
        *old(pos) <= data@.len(),
    ensures
        *old(pos) + 2 <= data@.len() ==> r is Ok && r->Ok_0 as nat == le_value(field(data@, *old(pos) as int, 2))
            && *final(pos) == *old(pos) + 2,
        *old(pos) + 2 > data@.len() ==> r == Err::<u16, EscrowError>(EscrowError::InvalidInstruction)
            && *final(pos) == *old(pos),
{
    if data.len() - *pos < 2 {
        return Err(EscrowError::InvalidInstruction);
    }
    let v = le_word(data, *pos, 2);
    proof {
        lemma_le_value_bound(field(data@, *pos as int, 2));
        reveal_with_fuel(byte_bound, 3);
    }
    *pos = *pos + 2;
    Ok(v as u16)
}

} // verus!
