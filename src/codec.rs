use vstd::bytes::{spec_u64_from_le_bytes, spec_u64_to_le_bytes, u64_from_le_bytes, u64_to_le_bytes};
use vstd::prelude::*;

verus! {

/// Operation code of the lending program's flash-loan (borrow) instruction.
pub const BORROW_OPCODE: u8 = 9;

/// Borrow payload: the opcode followed by the amount, little-endian.
pub open spec fn borrow_payload(amount: u64) -> Seq<u8> {
    seq![BORROW_OPCODE].add(spec_u64_to_le_bytes(amount))
}

/// Repay payload: the amount alone, little-endian.
pub open spec fn repay_payload(amount: u64) -> Seq<u8> {
    spec_u64_to_le_bytes(amount)
}

/// What decoding a borrow payload yields: the amount when the bytes have the
/// borrow layout, nothing otherwise.
pub open spec fn borrow_payload_amount(data: Seq<u8>) -> Option<u64> {
    if data.len() == 9 && data[0] == BORROW_OPCODE {
        Some(spec_u64_from_le_bytes(data.subrange(1, 9)))
    } else {
        None
    }
}

/// What decoding a repay payload yields.
pub open spec fn repay_payload_amount(data: Seq<u8>) -> Option<u64> {
    if data.len() == 8 {
        Some(spec_u64_from_le_bytes(data))
    } else {
        None
    }
}

pub fn encode_borrow(amount: u64) -> (r: Vec<u8>)
    ensures
        r@ == borrow_payload(amount),
        r@.len() == 9,
{
    proof {
        vstd::bytes::lemma_auto_spec_u64_to_from_le_bytes();
    }
    let le = u64_to_le_bytes(amount);
    let mut r: Vec<u8> = Vec::new();
    r.push(BORROW_OPCODE);
    let mut i: usize = 0;
    while i < le.len()
        invariant
            le@ == spec_u64_to_le_bytes(amount),
            le@.len() == 8,
            0 <= i <= 8,
            r@ == seq![BORROW_OPCODE].add(le@.subrange(0, i as int)),
        decreases 8 - i,
    {
        r.push(le[i]);
        i = i + 1;
        assert(le@.subrange(0, i as int) =~= le@.subrange(0, i - 1).push(le@[i - 1]));
    }
    assert(le@.subrange(0, 8) =~= le@);
    r
}

pub fn encode_repay(amount: u64) -> (r: Vec<u8>)
    ensures
        r@ == repay_payload(amount),
        r@.len() == 8,
{
    proof {
        vstd::bytes::lemma_auto_spec_u64_to_from_le_bytes();
    }
    u64_to_le_bytes(amount)
}

/// Reads the amount back out of a borrow payload.
pub fn decode_borrow(data: &[u8]) -> (r: Option<u64>)
    ensures
        r == borrow_payload_amount(data@),
{
    if data.len() != 9 || data[0] != BORROW_OPCODE {
        return None;
    }
    let mut le: Vec<u8> = Vec::new();
    let mut i: usize = 1;
    while i < 9
        invariant
            data@.len() == 9,
            1 <= i <= 9,
            le@ == data@.subrange(1, i as int),
        decreases 9 - i,
    {
        le.push(data[i]);
        i = i + 1;
        assert(data@.subrange(1, i as int) =~= data@.subrange(1, i - 1).push(data@[i - 1]));
    }
    Some(u64_from_le_bytes(le.as_slice()))
}

/// Reads the amount back out of a repay payload.
pub fn decode_repay(data: &[u8]) -> (r: Option<u64>)
    ensures
        r == repay_payload_amount(data@),
{
    if data.len() != 8 {
        return None;
    }
    Some(u64_from_le_bytes(data))
}

/// Decoding an encoded borrow payload gives back the amount it was made from.
pub proof fn lemma_borrow_round_trip(amount: u64)
    ensures
        borrow_payload_amount(borrow_payload(amount)) == Some(amount),
{
    vstd::bytes::lemma_auto_spec_u64_to_from_le_bytes();
    let p = borrow_payload(amount);
    assert(p.subrange(1, 9) =~= spec_u64_to_le_bytes(amount));
}

/// Decoding an encoded repay payload gives back the amount it was made from.
pub proof fn lemma_repay_round_trip(amount: u64)
    ensures
        repay_payload_amount(repay_payload(amount)) == Some(amount),
{
    vstd::bytes::lemma_auto_spec_u64_to_from_le_bytes();
}

} // verus!
