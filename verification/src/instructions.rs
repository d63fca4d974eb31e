use vstd::prelude::*;

use crate::address::spec_derive;
use crate::codec::{decode, spec_decode};
use crate::state::{identity_eq, spec_vault_seed, vault_seed, Caller, ErrorKind, Identity,
    VaultAccount, VaultRecord};

verus! {

/// Everything the host must apply for a deposit to take effect: the optional
/// creation of the vault account, the value transfer from the caller to the
/// vault, and the record to write back.
#[derive(Clone, Copy, Debug, PartialEq, Eq)]
pub struct DepositEffect {
    /// True where the vault account must first be created at the derived
    /// address, sized to the record length, funded to the reserve and owned
    /// by this program.
    pub create_vault: bool,
    /// The discriminator that authorizes acting on the derived address.
    pub bump: u8,
    /// Value to move from the caller to the vault.
    pub transfer: u64,
    /// The record to write to the vault account.
    pub record: VaultRecord,
}

/// The abstract shape of a deposit's effect, for contracts.
pub struct DepositOutcome {
    pub create_vault: bool,
    pub bump: u8,
    pub transfer: u64,
    pub initialized: bool,
    pub owner: Seq<u8>,
    pub balance: u64,
}

/// The abstraction of a concrete deposit effect.
pub open spec fn abs_deposit_effect(e: DepositEffect) -> DepositOutcome {
    DepositOutcome {
        create_vault: e.create_vault,
        bump: e.bump,
        transfer: e.transfer,
        initialized: e.record.initialized,
        owner: e.record.owner@,
        balance: e.record.balance,
    }
}

/// The full behaviour of a deposit, as a function of the call's inputs.
pub open spec fn spec_deposit(
    program_id: Seq<u8>,
    caller: Seq<u8>,
    is_signer: bool,
    caller_lamports: u64,
    vault_address: Seq<u8>,
    vault_data: Seq<u8>,
    amount: u64,
) -> Result<DepositOutcome, ErrorKind> {
    if !is_signer {
        Err(ErrorKind::Unauthorized)
    } else if caller_lamports < amount {
        Err(ErrorKind::InsufficientFunds)
    } else {
        match spec_derive(spec_vault_seed(), caller, program_id) {
            None => Err(ErrorKind::AddressMismatch),
            Some(derived) => if vault_address != derived.0 {
                Err(ErrorKind::AddressMismatch)
            } else if vault_data.len() == 0 {
                Ok(
                    DepositOutcome {
                        create_vault: true,
                        bump: derived.1,
                        transfer: amount,
                        initialized: true,
                        owner: caller,
                        balance: amount,
                    },
                )
            } else {
                match spec_decode(vault_data) {
                    None => Err(ErrorKind::DecodeError),
                    Some(rec) => if !rec.0 {
                        Err(ErrorKind::NotInitialized)
                    } else if rec.2 + amount > u64::MAX {
                        Err(ErrorKind::Overflow)
                    } else {
                        Ok(
                            DepositOutcome {
                                create_vault: false,
                                bump: derived.1,
                                transfer: amount,
                                initialized: true,
                                owner: rec.1,
                                balance: (rec.2 + amount) as u64,
                            },
                        )
                    },
                }
            },
        }
    }
}

/// Validates and plans a deposit of `amount` by the caller.
///
/// The checks run in order: the caller must sign, must hold at least the
/// amount, and the vault account must sit at the address derived for the
/// caller. A vault with no data yet is created with the caller as owner and
/// the amount as its whole balance; an existing record has the amount added
/// to its balance with checked arithmetic, failing closed on overflow.
pub fn deposit(program_id: &Identity, caller: &Caller, vault: &VaultAccount, amount: u64) -> (r:
    Result<DepositEffect, ErrorKind>)
    ensures
        match r {
            Ok(e) => spec_deposit(
                program_id@,
                caller.identity@,
                caller.is_signer,
                caller.lamports,
                vault.address@,
                vault.data@,
                amount,
            ) == Ok::<DepositOutcome, ErrorKind>(abs_deposit_effect(e)),
            Err(k) => spec_deposit(
                program_id@,
                caller.identity@,
                caller.is_signer,
                caller.lamports,
                vault.address@,
                vault.data@,
                amount,
            ) == Err::<DepositOutcome, ErrorKind>(k),
        },
{
    if !caller.is_signer {
        return Err(ErrorKind::Unauthorized);
    }
    if caller.lamports < amount {
        return Err(ErrorKind::InsufficientFunds);
    }
    let seed = vault_seed();
    let (address, bump) = match crate::address::derive(seed.as_slice(), &caller.identity, program_id) {
        None => {
            return Err(ErrorKind::AddressMismatch);
        },
        Some(p) => p,
    };
    if !identity_eq(&vault.address, &address) {
        return Err(ErrorKind::AddressMismatch);
    }
    if vault.data.len() == 0 {
        return Ok(
            DepositEffect {
                create_vault: true,
                bump,
                transfer: amount,
                record: VaultRecord { initialized: true, owner: caller.identity, balance: amount },
            },
        );
    }
    let record = match decode(vault.data.as_slice()) {
        Err(_) => {
            return Err(ErrorKind::DecodeError);
        },
        Ok(record) => record,
    };
    if !record.initialized {
        return Err(ErrorKind::NotInitialized);
    }
    let balance = match record.balance.checked_add(amount) {
        None => {
            return Err(ErrorKind::Overflow);
        },
        Some(balance) => balance,
    };
    Ok(
        DepositEffect {
            create_vault: false,
            bump,
            transfer: amount,
            record: VaultRecord { initialized: true, owner: record.owner, balance },
        },
    )
}

/// Everything the host must apply for a withdrawal to take effect: the
/// payout transfer from the vault to the caller, and the record to write
/// back.
#[derive(Clone, Copy, Debug, PartialEq, Eq)]
pub struct WithdrawEffect {
    /// The discriminator that authorizes acting on the derived address.
    pub bump: u8,
    /// Value to move from the vault to the caller.
    pub payout: u64,
    /// The record to write to the vault account.
    pub record: VaultRecord,
}

/// The abstract shape of a withdrawal's effect, for contracts.
pub struct WithdrawOutcome {
    pub bump: u8,
    pub payout: u64,
    pub initialized: bool,
    pub owner: Seq<u8>,
    pub balance: u64,
}

/// The abstraction of a concrete withdrawal effect.
pub open spec fn abs_withdraw_effect(e: WithdrawEffect) -> WithdrawOutcome {
    WithdrawOutcome {
        bump: e.bump,
        payout: e.payout,
        initialized: e.record.initialized,
        owner: e.record.owner@,
        balance: e.record.balance,
    }
}

/// The full behaviour of a withdrawal, as a function of the call's inputs.
/// The payout is a tenth of the stored balance, rounded down; a balance
/// under ten withdraws nothing and still succeeds.
pub open spec fn spec_withdraw(
    program_id: Seq<u8>,
    caller: Seq<u8>,
    is_signer: bool,
    vault_address: Seq<u8>,
    vault_lamports: u64,
    vault_data: Seq<u8>,
) -> Result<WithdrawOutcome, ErrorKind> {
    if !is_signer {
        Err(ErrorKind::Unauthorized)
    } else {
        match spec_derive(spec_vault_seed(), caller, program_id) {
            None => Err(ErrorKind::AddressMismatch),
            Some(derived) => if vault_address != derived.0 {
                Err(ErrorKind::AddressMismatch)
            } else if vault_data.len() == 0 {
                Err(ErrorKind::NotInitialized)
            } else {
                match spec_decode(vault_data) {
                    None => Err(ErrorKind::DecodeError),
                    Some(rec) => if !rec.0 {
                        Err(ErrorKind::NotInitialized)
                    } else if rec.1 != caller {
                        Err(ErrorKind::Forbidden)
                    } else if rec.2 / 10 > vault_lamports {
                        Err(ErrorKind::InsufficientFunds)
                    } else {
                        Ok(
                            WithdrawOutcome {
                                bump: derived.1,
                                payout: (rec.2 / 10) as u64,
                                initialized: true,
                                owner: rec.1,
                                balance: (rec.2 - rec.2 / 10) as u64,
                            },
                        )
                    },
                }
            },
        }
    }
}

/// Validates and plans a withdrawal by the caller.
///
/// The checks run in order: the caller must sign, the vault account must sit
/// at the address derived for the caller, its record must exist, decode and
/// be initialized, and its stored owner must be the caller. The payout is a
/// tenth of the stored balance, rounded down, and is rejected where the
/// vault's actual funded value cannot cover it; the new balance is the old
/// one less the payout, which never wraps.
pub fn withdraw(program_id: &Identity, caller: &Caller, vault: &VaultAccount) -> (r: Result<
    WithdrawEffect,
    ErrorKind,
>)
    ensures
        match r {
            Ok(e) => spec_withdraw(
                program_id@,
                caller.identity@,
                caller.is_signer,
                vault.address@,
                vault.lamports,
                vault.data@,
            ) == Ok::<WithdrawOutcome, ErrorKind>(abs_withdraw_effect(e)),
            Err(k) => spec_withdraw(
                program_id@,
                caller.identity@,
                caller.is_signer,
                vault.address@,
                vault.lamports,
                vault.data@,
            ) == Err::<WithdrawOutcome, ErrorKind>(k),
        },
{
    if !caller.is_signer {
        return Err(ErrorKind::Unauthorized);
    }
    let seed = vault_seed();
    let (address, bump) = match crate::address::derive(seed.as_slice(), &caller.identity, program_id) {
        None => {
            return Err(ErrorKind::AddressMismatch);
        },
        Some(p) => p,
    };
    if !identity_eq(&vault.address, &address) {
        return Err(ErrorKind::AddressMismatch);
    }
    if vault.data.len() == 0 {
        return Err(ErrorKind::NotInitialized);
    }
    let record = match decode(vault.data.as_slice()) {
        Err(_) => {
            return Err(ErrorKind::DecodeError);
        },
        Ok(record) => record,
    };
    if !record.initialized {
        return Err(ErrorKind::NotInitialized);
    }
    if !identity_eq(&record.owner, &caller.identity) {
        return Err(ErrorKind::Forbidden);
    }
    let payout: u64 = record.balance / 10;
    if payout > vault.lamports {
        return Err(ErrorKind::InsufficientFunds);
    }
    assert(payout <= record.balance) by (nonlinear_arith)
        requires
            payout == record.balance / 10,
    ;
    Ok(
        WithdrawEffect {
            bump,
            payout,
            record: VaultRecord {
                initialized: true,
                owner: record.owner,
                balance: record.balance - payout,
            },
        },
    )
}

/// Law: the first deposit for a fresh owner — a signed, funded call on a
/// vault account with no data at the derived address — creates the record
/// initialized, owned by the caller, with the amount as its whole balance.
pub proof fn lemma_first_deposit(
    program_id: Seq<u8>,
    caller: Seq<u8>,
    caller_lamports: u64,
    vault_address: Seq<u8>,
    amount: u64,
)
    requires
        caller_lamports >= amount,
        spec_derive(spec_vault_seed(), caller, program_id) matches Some(derived) && vault_address
            == derived.0,
    ensures
        spec_deposit(program_id, caller, true, caller_lamports, vault_address, Seq::empty(), amount)
            matches Ok(o) && o.create_vault && o.initialized && o.owner == caller && o.balance
            == amount && o.transfer == amount,
{
}

/// Law: a signed, funded deposit on an existing, initialized record adds
/// exactly the amount to the stored balance, or is rejected with Overflow
/// where the sum would wrap; the owner and the flag are untouched.
pub proof fn lemma_deposit_adds_exactly(
    program_id: Seq<u8>,
    caller: Seq<u8>,
    caller_lamports: u64,
    vault_address: Seq<u8>,
    vault_data: Seq<u8>,
    amount: u64,
)
    requires
        caller_lamports >= amount,
        spec_derive(spec_vault_seed(), caller, program_id) matches Some(derived) && vault_address
            == derived.0,
        vault_data.len() > 0,
        spec_decode(vault_data) matches Some(rec) && rec.0,
    ensures
        ({
            let rec = spec_decode(vault_data)->Some_0;
            let r = spec_deposit(
                program_id,
                caller,
                true,
                caller_lamports,
                vault_address,
                vault_data,
                amount,
            );
            &&& rec.2 + amount <= u64::MAX ==> (r matches Ok(o) && !o.create_vault && o.balance
                == rec.2 + amount && o.owner == rec.1 && o.initialized && o.transfer == amount)
            &&& rec.2 + amount > u64::MAX ==> r == Err::<DepositOutcome, ErrorKind>(
                ErrorKind::Overflow,
            )
        }),
{
}

/// Law: a signed, funded call whose supplied vault account is not at the
/// address derived for the caller is rejected with AddressMismatch, whatever
/// the vault holds — for deposits and withdrawals alike.
pub proof fn lemma_address_mismatch_rejected(
    program_id: Seq<u8>,
    caller: Seq<u8>,
    caller_lamports: u64,
    vault_address: Seq<u8>,
    vault_lamports: u64,
    vault_data: Seq<u8>,
    amount: u64,
)
    requires
        caller_lamports >= amount,
        !(spec_derive(spec_vault_seed(), caller, program_id) matches Some(derived) && vault_address
            == derived.0),
    ensures
        spec_deposit(program_id, caller, true, caller_lamports, vault_address, vault_data, amount)
            == Err::<DepositOutcome, ErrorKind>(ErrorKind::AddressMismatch),
        spec_withdraw(program_id, caller, true, vault_address, vault_lamports, vault_data)
            == Err::<WithdrawOutcome, ErrorKind>(ErrorKind::AddressMismatch),
{
}

/// Law: a withdrawal by a signer other than the record's stored owner fails
/// with Forbidden. No effect is returned on any rejection, so the stored
/// record — its balance included — stays as it is.
pub proof fn lemma_withdraw_by_non_owner(
    program_id: Seq<u8>,
    caller: Seq<u8>,
    vault_address: Seq<u8>,
    vault_lamports: u64,
    vault_data: Seq<u8>,
)
    requires
        spec_derive(spec_vault_seed(), caller, program_id) matches Some(derived) && vault_address
            == derived.0,
        vault_data.len() > 0,
        spec_decode(vault_data) matches Some(rec) && rec.0 && rec.1 != caller,
    ensures
        spec_withdraw(program_id, caller, true, vault_address, vault_lamports, vault_data)
            == Err::<WithdrawOutcome, ErrorKind>(ErrorKind::Forbidden),
{
}

/// Law: a valid withdrawal pays exactly a tenth of the stored balance,
/// rounded down, and leaves exactly the rest.
pub proof fn lemma_withdraw_payout(
    program_id: Seq<u8>,
    caller: Seq<u8>,
    vault_address: Seq<u8>,
    vault_lamports: u64,
    vault_data: Seq<u8>,
)
    requires
        spec_derive(spec_vault_seed(), caller, program_id) matches Some(derived) && vault_address
            == derived.0,
        vault_data.len() > 0,
        spec_decode(vault_data) matches Some(rec) && rec.0 && rec.1 == caller && rec.2 / 10
            <= vault_lamports,
    ensures
        ({
            let rec = spec_decode(vault_data)->Some_0;
            spec_withdraw(program_id, caller, true, vault_address, vault_lamports, vault_data)
                matches Ok(o) && o.payout == rec.2 / 10 && o.balance == rec.2 - o.payout && o.owner
                == rec.1 && o.initialized
        }),
{
}

/// Law: a valid withdrawal on a balance under ten succeeds, pays nothing and
/// leaves the balance as it was.
pub proof fn lemma_small_balance_withdraw(
    program_id: Seq<u8>,
    caller: Seq<u8>,
    vault_address: Seq<u8>,
    vault_lamports: u64,
    vault_data: Seq<u8>,
)
    requires
        spec_derive(spec_vault_seed(), caller, program_id) matches Some(derived) && vault_address
            == derived.0,
        vault_data.len() > 0,
        spec_decode(vault_data) matches Some(rec) && rec.0 && rec.1 == caller && rec.2 < 10,
    ensures
        spec_withdraw(program_id, caller, true, vault_address, vault_lamports, vault_data)
            matches Ok(o) && o.payout == 0 && o.balance == spec_decode(vault_data)->Some_0.2,
{
}

} // verus!
