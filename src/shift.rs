use vstd::prelude::*;

use crate::error::SvfError;
use crate::register::Register;

verus! {

/// The number of valid bits in the last byte of a pattern of `length` bits:
/// the remainder by eight, where a remainder of zero means a full byte.
pub open spec fn final_bits_of(length: u32) -> u8 {
    if length % 8 == 0 {
        8
    } else {
        (length % 8) as u8
    }
}

/// The number of bytes that hold a pattern of `length` bits.
pub open spec fn bytes_for(length: u32) -> int {
    (length as int + 7) / 8
}

/// The bytes driven out: each input byte under its shift mask, over the
/// range the two vectors share.
pub open spec fn masked(tdi: Seq<u8>, smask: Seq<u8>) -> Seq<u8> {
    Seq::new(
        if tdi.len() <= smask.len() { tdi.len() } else { smask.len() },
        |i: int| tdi[i] & smask[i],
    )
}

/// The number of bytes that the captured, expected and mask vectors share.
pub open spec fn shared_len(captured: Seq<u8>, expected: Seq<u8>, mask: Seq<u8>) -> int {
    let a = if captured.len() <= expected.len() { captured.len() } else { expected.len() };
    if a <= mask.len() { a as int } else { mask.len() as int }
}

/// Byte `i` of the capture agrees with the expected byte on the bits the
/// mask selects.
pub open spec fn byte_agrees(captured: Seq<u8>, expected: Seq<u8>, mask: Seq<u8>, i: int) -> bool {
    captured[i] & mask[i] == expected[i] & mask[i]
}

/// Every shared byte of the capture agrees with the expected one under the mask.
pub open spec fn capture_agrees(captured: Seq<u8>, expected: Seq<u8>, mask: Seq<u8>) -> bool {
    forall|i: int| 0 <= i < shared_len(captured, expected, mask) ==> byte_agrees(captured, expected, mask, i)
}

/// Computes the number of valid bits in the last byte of a pattern.
pub fn final_bits(length: u32) -> (r: u8)
    ensures
        r == final_bits_of(length),
        1 <= r <= 8,
{
    let rem: u32 = length % 8;
    if rem == 0 {
        8
    } else {
        rem as u8
    }
}

/// For one to seven bits the last byte holds them all; for a whole number of
/// bytes it is full.
pub proof fn lemma_final_bits(length: u32)
    ensures
        1 <= length <= 7 ==> final_bits_of(length) == length,
        length % 8 == 0 ==> final_bits_of(length) == 8,
        final_bits_of(8) == 8 && final_bits_of(16) == 8 && final_bits_of(24) == 8,
{
}

/// Builds the output buffer: each byte of `tdi` and'ed with the byte of
/// `smask` at the same place, as far as both reach.
pub fn mask_bytes(tdi: &Vec<u8>, smask: &Vec<u8>) -> (r: Vec<u8>)
    ensures
        r@ == masked(tdi@, smask@),
{
    let n: usize = if tdi.len() <= smask.len() { tdi.len() } else { smask.len() };
    let mut buf: Vec<u8> = Vec::with_capacity(n);
    let mut i: usize = 0;
    while i < n
        invariant
            n <= tdi.len(),
            n <= smask.len(),
            n == masked(tdi@, smask@).len(),
            i <= n,
            buf@ == masked(tdi@, smask@).subrange(0, i as int),
        decreases n - i,
    {
        buf.push(tdi[i] & smask[i]);
        i += 1;
    }
    assert(buf@ =~= masked(tdi@, smask@));
    buf
}

/// What a scan's capture is compared with.
#[derive(Debug)]
pub struct Check {
    /// The register that was scanned.
    pub register: Register,
    /// The expected bits (TDO).
    pub expected: Vec<u8>,
    /// The bits of the capture that count.
    pub mask: Vec<u8>,
}

/// The contents of a [`Check`].
pub struct CheckView {
    pub register: Register,
    pub expected: Seq<u8>,
    pub mask: Seq<u8>,
}

impl View for Check {
    type V = CheckView;

    open spec fn view(&self) -> CheckView {
        CheckView { register: self.register, expected: self.expected@, mask: self.mask@ }
    }
}

/// Compares a capture with the expected bits under the mask, byte by byte
/// over the range the three vectors share. On a disagreement the error names
/// the register and the first byte that differs.
pub fn verify_capture(check: &Check, captured: &Vec<u8>) -> (r: Result<(), SvfError>)
    ensures
        r is Ok <==> capture_agrees(captured@, check.expected@, check.mask@),
        r matches Err(e) ==> ({
            let k = e->Mismatch_index as int;
            &&& e is Mismatch
            &&& e->Mismatch_register == check.register
            &&& 0 <= k < shared_len(captured@, check.expected@, check.mask@)
            &&& !byte_agrees(captured@, check.expected@, check.mask@, k)
            &&& forall|i: int| 0 <= i < k ==> byte_agrees(captured@, check.expected@, check.mask@, i)
        }),
{
    let expected = &check.expected;
    let mask = &check.mask;
    let a: usize = if captured.len() <= expected.len() { captured.len() } else { expected.len() };
    let n: usize = if a <= mask.len() { a } else { mask.len() };
    let mut i: usize = 0;
    while i < n
        invariant
            expected@ == check.expected@,
            mask@ == check.mask@,
            n == shared_len(captured@, expected@, mask@),
            n <= captured.len(),
            n <= expected.len(),
            n <= mask.len(),
            i <= n,
            forall|j: int| 0 <= j < i ==> byte_agrees(captured@, expected@, mask@, j),
        decreases n - i,
    {
        let c: u8 = captured[i] & mask[i];
        let e: u8 = expected[i] & mask[i];
        if c != e {
            assert(!byte_agrees(captured@, expected@, mask@, i as int));
            return Err(SvfError::Mismatch { register: check.register, index: i });
        }
        i += 1;
    }
    Ok(())
}

} // verus!
