use vstd::prelude::*;

verus! {

/// Size in bytes of an encoded vault record: one flag byte, the 32-byte
/// owner identity, and an 8-byte little-endian balance.
pub const RECORD_LEN: usize = 41;

/// A 32-byte public identity, used both for account addresses and for owners.
pub type Identity = [u8; 32];

/// The persisted vault record.
#[derive(Clone, Copy, Debug, PartialEq, Eq)]
pub struct VaultRecord {
    /// True once the vault has been created for an owner.
    pub initialized: bool,
    /// The sole identity authorized to withdraw from this vault.
    pub owner: Identity,
    /// Custodied value: cumulative deposits minus cumulative payouts.
    pub balance: u64,
}

/// The decoded instruction payload: either a deposit of a caller-supplied
/// amount, or a withdrawal, whose amount is derived from the stored balance.
#[derive(Clone, Copy, Debug, PartialEq, Eq, Structural)]
pub enum SolAccountInstruction {
    DepositSol(u64),
    WithdrawSol,
}

/// Failures of the record codec.
#[derive(Clone, Copy, Debug, PartialEq, Eq, Structural)]
pub enum DecodeError {
    /// The buffer is shorter than `RECORD_LEN`.
    Truncated,
    /// The flag byte is neither 0 nor 1.
    Malformed,
}

/// Every way a call can be rejected. A call either takes full effect or is
/// rejected with exactly one of these; there is no partial application.
#[derive(Clone, Copy, Debug, PartialEq, Eq, Structural)]
pub enum ErrorKind {
    /// The caller is not an authorizing signer.
    Unauthorized,
    /// The supplied vault account is not at the derived address.
    AddressMismatch,
    /// The caller or the vault lacks the required funds.
    InsufficientFunds,
    /// The vault record does not exist yet, or its flag is unset.
    NotInitialized,
    /// The caller is not the record's stored owner.
    Forbidden,
    /// The balance update would wrap upward.
    Overflow,
    /// The balance update would wrap downward.
    Underflow,
    /// The instruction payload is not recognized.
    InvalidInstruction,
    /// The stored record is corrupt.
    DecodeError,
}

/// The caller's account, as the host presents it at entry.
#[derive(Clone, Copy, Debug, PartialEq, Eq)]
pub struct Caller {
    /// The caller's public identity.
    pub identity: Identity,
    /// True where the caller is an authorizing signer of the transaction.
    pub is_signer: bool,
    /// The caller's spendable funds at the ledger level.
    pub lamports: u64,
}

/// The vault account, as the host presents it at entry.
#[derive(Debug)]
pub struct VaultAccount {
    /// The account's address.
    pub address: Identity,
    /// The account's funded value at the ledger level.
    pub lamports: u64,
    /// The account's stored bytes: empty until the vault is created, the
    /// encoded record afterwards.
    pub data: Vec<u8>,
}

/// The fixed derivation seed: the ASCII bytes of "sol_account".
pub open spec fn spec_vault_seed() -> Seq<u8> {
    seq![115u8, 111u8, 108u8, 95u8, 97u8, 99u8, 99u8, 111u8, 117u8, 110u8, 116u8]
}

/// The fixed derivation seed as a byte vector.
pub fn vault_seed() -> (s: Vec<u8>)
    ensures
        s@ == spec_vault_seed(),
{
    let mut s: Vec<u8> = Vec::new();
    s.push(115);
    s.push(111);
    s.push(108);
    s.push(95);
    s.push(97);
    s.push(99);
    s.push(99);
    s.push(111);
    s.push(117);
    s.push(110);
    s.push(116);
    proof {
        assert(s@ =~= spec_vault_seed());
    }
    s
}

/// Byte-for-byte equality of two identities.
pub fn identity_eq(a: &Identity, b: &Identity) -> (r: bool)
    ensures
        r == (a@ == b@),
{
    let mut i: usize = 0;
    while i < 32
        invariant
            i <= 32,
            forall|j: int| 0 <= j < i ==> a@[j] == b@[j],
        decreases 32 - i,
    {
        if a[i] != b[i] {
            assert(a@[i as int] != b@[i as int]);
            return false;
        }
        i += 1;
    }
    proof {
        assert(a@ =~= b@);
    }
    true
}

} // verus!
