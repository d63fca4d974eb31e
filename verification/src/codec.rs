use vstd::prelude::*;
use vstd::bytes::{
    lemma_auto_spec_u64_to_from_le_bytes, spec_u64_from_le_bytes, spec_u64_to_le_bytes,
    u64_from_le_bytes, u64_to_le_bytes,
};

use crate::state::{DecodeError, Identity, VaultRecord, RECORD_LEN};

verus! {

/// The exact bytes that encode a record: the flag, the owner identity, and
/// the balance in little-endian order.
pub open spec fn spec_encode(r: VaultRecord) -> Seq<u8> {
    seq![if r.initialized { 1u8 } else { 0u8 }] + r.owner@ + spec_u64_to_le_bytes(r.balance)
}

/// What decoding yields on a buffer: the flag, the owner bytes and the
/// balance, or `None` where the buffer is shorter than `RECORD_LEN` or the
/// flag byte is invalid. Bytes past `RECORD_LEN` are ignored.
pub open spec fn spec_decode(b: Seq<u8>) -> Option<(bool, Seq<u8>, u64)> {
    if b.len() < RECORD_LEN {
        None
    } else if b[0] != 0u8 && b[0] != 1u8 {
        None
    } else {
        Some((b[0] == 1u8, b.subrange(1, 33), spec_u64_from_le_bytes(b.subrange(33, 41))))
    }
}

/// Serializes a record into its fixed `RECORD_LEN`-byte layout.
pub fn encode(r: &VaultRecord) -> (b: Vec<u8>)
    ensures
        b@ == spec_encode(*r),
        b@.len() == RECORD_LEN,
{
    let mut b: Vec<u8> = Vec::new();
    if r.initialized {
        b.push(1u8);
    } else {
        b.push(0u8);
    }
    let mut i: usize = 0;
    while i < 32
        invariant
            i <= 32,
            b@.len() == 1 + i,
            b@[0] == (if r.initialized { 1u8 } else { 0u8 }),
            forall|j: int| 0 <= j < i ==> b@[1 + j] == r.owner@[j],
        decreases 32 - i,
    {
        b.push(r.owner[i]);
        i += 1;
    }
    let mut tail = u64_to_le_bytes(r.balance);
    b.append(&mut tail);
    proof {
        assert(b@ =~= spec_encode(*r));
    }
    b
}

/// Parses a record from its fixed binary layout. Fails with `Truncated` on a
/// buffer shorter than `RECORD_LEN` and with `Malformed` on an invalid flag
/// byte, and succeeds on exactly the buffers that `spec_decode` accepts.
pub fn decode(bytes: &[u8]) -> (r: Result<VaultRecord, DecodeError>)
    ensures
        match r {
            Ok(rec) => spec_decode(bytes@) == Some((rec.initialized, rec.owner@, rec.balance)),
            Err(DecodeError::Truncated) => bytes@.len() < RECORD_LEN,
            Err(DecodeError::Malformed) => bytes@.len() >= RECORD_LEN && bytes@[0] != 0u8
                && bytes@[0] != 1u8,
        },
        (r is Ok) == (spec_decode(bytes@) is Some),
{
    if bytes.len() < RECORD_LEN {
        return Err(DecodeError::Truncated);
    }
    let flag: u8 = bytes[0];
    if flag != 0 && flag != 1 {
        return Err(DecodeError::Malformed);
    }
    let mut owner: Identity = [0u8; 32];
    let mut i: usize = 0;
    while i < 32
        invariant
            i <= 32,
            bytes@.len() >= RECORD_LEN,
            forall|j: int| 0 <= j < i ==> owner@[j] == bytes@[1 + j],
        decreases 32 - i,
    {
        owner[i] = bytes[1 + i];
        i += 1;
    }
    let balance: u64 = u64_from_le_bytes(&bytes[33..41]);
    proof {
        assert(owner@ =~= bytes@.subrange(1, 33));
    }
    Ok(VaultRecord { initialized: flag == 1, owner, balance })
}

/// Law: decoding the encoding of any record yields that record exactly.
pub proof fn lemma_record_round_trip(r: VaultRecord)
    ensures
        spec_decode(spec_encode(r)) == Some((r.initialized, r.owner@, r.balance)),
{
    lemma_auto_spec_u64_to_from_le_bytes();
    let b = spec_encode(r);
    assert(b.subrange(1, 33) =~= r.owner@);
    assert(b.subrange(33, 41) =~= spec_u64_to_le_bytes(r.balance));
}

} // verus!
