use vstd::prelude::*;
use vstd::bytes::{spec_u64_from_le_bytes, u64_from_le_bytes};

use crate::instructions::{
    abs_deposit_effect, abs_withdraw_effect, deposit, spec_deposit, spec_withdraw, withdraw,
    DepositEffect, DepositOutcome, WithdrawEffect, WithdrawOutcome,
};
use crate::state::{Caller, ErrorKind, Identity, SolAccountInstruction, VaultAccount};

verus! {

/// What decoding the instruction payload yields: a one-byte tag, 0 for a
/// deposit followed by its little-endian amount, 1 for a withdrawal with no
/// payload. Anything else, trailing bytes included, is unrecognized.
pub open spec fn spec_decode_instruction(b: Seq<u8>) -> Option<SolAccountInstruction> {
    if b.len() == 9 && b[0] == 0u8 {
        Some(SolAccountInstruction::DepositSol(spec_u64_from_le_bytes(b.subrange(1, 9))))
    } else if b.len() == 1 && b[0] == 1u8 {
        Some(SolAccountInstruction::WithdrawSol)
    } else {
        None
    }
}

/// Parses the opaque instruction payload, rejecting exactly the buffers that
/// `spec_decode_instruction` does not recognize.
pub fn decode_instruction(bytes: &[u8]) -> (r: Result<SolAccountInstruction, ErrorKind>)
    ensures
        match r {
            Ok(instruction) => spec_decode_instruction(bytes@) == Some(instruction),
            Err(k) => k == ErrorKind::InvalidInstruction && spec_decode_instruction(bytes@)
                is None,
        },
{
    if bytes.len() == 9 && bytes[0] == 0 {
        let amount: u64 = u64_from_le_bytes(&bytes[1..9]);
        Ok(SolAccountInstruction::DepositSol(amount))
    } else if bytes.len() == 1 && bytes[0] == 1 {
        Ok(SolAccountInstruction::WithdrawSol)
    } else {
        Err(ErrorKind::InvalidInstruction)
    }
}

/// Everything the host must apply for one call to take effect.
#[derive(Clone, Copy, Debug, PartialEq, Eq)]
pub enum Effect {
    Deposited(DepositEffect),
    Withdrew(WithdrawEffect),
}

/// The abstract shape of a call's effect, for contracts.
pub enum Outcome {
    Deposited(DepositOutcome),
    Withdrew(WithdrawOutcome),
}

/// The abstraction of a concrete effect.
pub open spec fn abs_effect(e: Effect) -> Outcome {
    match e {
        Effect::Deposited(d) => Outcome::Deposited(abs_deposit_effect(d)),
        Effect::Withdrew(w) => Outcome::Withdrew(abs_withdraw_effect(w)),
    }
}

/// The full behaviour of one call, as a function of its inputs: decode the
/// payload, then run the operation it names.
pub open spec fn spec_process(
    program_id: Seq<u8>,
    caller: Seq<u8>,
    is_signer: bool,
    caller_lamports: u64,
    vault_address: Seq<u8>,
    vault_lamports: u64,
    vault_data: Seq<u8>,
    instruction_data: Seq<u8>,
) -> Result<Outcome, ErrorKind> {
    match spec_decode_instruction(instruction_data) {
        None => Err(ErrorKind::InvalidInstruction),
        Some(SolAccountInstruction::DepositSol(amount)) => match spec_deposit(
            program_id,
            caller,
            is_signer,
            caller_lamports,
            vault_address,
            vault_data,
            amount,
        ) {
            Ok(o) => Ok(Outcome::Deposited(o)),
            Err(k) => Err(k),
        },
        Some(SolAccountInstruction::WithdrawSol) => match spec_withdraw(
            program_id,
            caller,
            is_signer,
            vault_address,
            vault_lamports,
            vault_data,
        ) {
            Ok(o) => Ok(Outcome::Withdrew(o)),
            Err(k) => Err(k),
        },
    }
}

/// Decodes the instruction payload and runs the named operation on the
/// caller's and the vault's state, returning the effect the host must apply
/// or the one error that rejects the whole call.
pub fn process_instruction(
    program_id: &Identity,
    caller: &Caller,
    vault: &VaultAccount,
    instruction_data: &[u8],
) -> (r: Result<Effect, ErrorKind>)
    ensures
        match r {
            Ok(e) => spec_process(
                program_id@,
                caller.identity@,
                caller.is_signer,
                caller.lamports,
                vault.address@,
                vault.lamports,
                vault.data@,
                instruction_data@,
            ) == Ok::<Outcome, ErrorKind>(abs_effect(e)),
            Err(k) => spec_process(
                program_id@,
                caller.identity@,
                caller.is_signer,
                caller.lamports,
                vault.address@,
                vault.lamports,
                vault.data@,
                instruction_data@,
            ) == Err::<Outcome, ErrorKind>(k),
        },
{
    let instruction = match decode_instruction(instruction_data) {
        Err(k) => {
            return Err(k);
        },
        Ok(instruction) => instruction,
    };
    match instruction {
        SolAccountInstruction::DepositSol(amount) => {
            match deposit(program_id, caller, vault, amount) {
                Ok(e) => Ok(Effect::Deposited(e)),
                Err(k) => Err(k),
            }
        },
        SolAccountInstruction::WithdrawSol => {
            match withdraw(program_id, caller, vault) {
                Ok(e) => Ok(Effect::Withdrew(e)),
                Err(k) => Err(k),
            }
        },
    }
}

} // verus!
