use sol_vault::codec::{decode, encode};
use sol_vault::instructions::{deposit, withdraw};
use sol_vault::processor::{decode_instruction, process_instruction, Effect};
use sol_vault::state::{
    vault_seed, Caller, DecodeError, ErrorKind, Identity, SolAccountInstruction, VaultAccount,
    VaultRecord, RECORD_LEN,
};

fn ident(tag: u8) -> Identity {
    let mut id = [0u8; 32];
    id[0] = tag;
    id[31] = tag.wrapping_add(1);
    id
}

fn vault_address_for(owner: &Identity, program_id: &Identity) -> (Identity, u8) {
    let seed = vault_seed();
    sol_vault::address::derive(seed.as_slice(), owner, program_id)
        .expect("a discriminator must exist for these inputs")
}

fn vault_for(owner: &Identity, program_id: &Identity, lamports: u64, data: Vec<u8>) -> VaultAccount {
    let (address, _) = vault_address_for(owner, program_id);
    VaultAccount { address, lamports, data }
}

#[test]
fn record_round_trip() {
    let cases = [
        VaultRecord { initialized: true, owner: ident(7), balance: 0 },
        VaultRecord { initialized: true, owner: ident(8), balance: 1000 },
        VaultRecord { initialized: false, owner: ident(9), balance: u64::MAX },
        VaultRecord { initialized: true, owner: [0xffu8; 32], balance: 0x0102_0304_0506_0708 },
    ];
    for record in cases {
        let bytes = encode(&record);
        assert_eq!(bytes.len(), RECORD_LEN);
        assert_eq!(decode(bytes.as_slice()), Ok(record));
    }
}

#[test]
fn record_layout_is_fixed() {
    let record = VaultRecord { initialized: true, owner: ident(3), balance: 0x0102_0304_0506_0708 };
    let bytes = encode(&record);
    assert_eq!(bytes[0], 1);
    assert_eq!(&bytes[1..33], ident(3).as_slice());
    // Little-endian balance: least significant byte first.
    assert_eq!(&bytes[33..41], &[0x08, 0x07, 0x06, 0x05, 0x04, 0x03, 0x02, 0x01]);
}

#[test]
fn record_decode_truncated() {
    assert_eq!(decode(&[]), Err(DecodeError::Truncated));
    assert_eq!(decode(&[1u8; 40]), Err(DecodeError::Truncated));
}

#[test]
fn record_decode_malformed_flag() {
    let mut bytes = vec![0u8; RECORD_LEN];
    bytes[0] = 2;
    assert_eq!(decode(bytes.as_slice()), Err(DecodeError::Malformed));
    bytes[0] = 0xff;
    assert_eq!(decode(bytes.as_slice()), Err(DecodeError::Malformed));
}

#[test]
fn instruction_decode_matches_host_encoding() {
    // The payload layout the host produces: a one-byte tag, then the borsh
    // little-endian encoding of the argument.
    let deposit_bytes = borsh::to_vec(&(0u8, 1000u64)).unwrap();
    assert_eq!(
        decode_instruction(deposit_bytes.as_slice()),
        Ok(SolAccountInstruction::DepositSol(1000))
    );
    let withdraw_bytes = borsh::to_vec(&1u8).unwrap();
    assert_eq!(
        decode_instruction(withdraw_bytes.as_slice()),
        Ok(SolAccountInstruction::WithdrawSol)
    );
}

#[test]
fn instruction_decode_rejects_malformed() {
    assert_eq!(decode_instruction(&[]), Err(ErrorKind::InvalidInstruction));
    assert_eq!(decode_instruction(&[2]), Err(ErrorKind::InvalidInstruction));
    assert_eq!(decode_instruction(&[0, 1, 2]), Err(ErrorKind::InvalidInstruction));
    // Trailing bytes after a full payload are rejected, not ignored.
    assert_eq!(decode_instruction(&[1, 0]), Err(ErrorKind::InvalidInstruction));
    assert_eq!(
        decode_instruction(&[0, 1, 2, 3, 4, 5, 6, 7, 8, 9]),
        Err(ErrorKind::InvalidInstruction)
    );
}

#[test]
fn derivation_is_deterministic() {
    let owner = ident(5);
    let program_id = ident(6);
    let first = vault_address_for(&owner, &program_id);
    let second = vault_address_for(&owner, &program_id);
    assert_eq!(first, second);
}

#[test]
fn derivation_matches_host() {
    let owner = ident(5);
    let program_id = ident(6);
    let (address, bump) = vault_address_for(&owner, &program_id);
    let pid = solana_program::pubkey::Pubkey::new_from_array(program_id);
    let (expected, expected_bump) = solana_program::pubkey::Pubkey::find_program_address(
        &[vault_seed().as_slice(), owner.as_slice()],
        &pid,
    );
    assert_eq!(address, expected.to_bytes());
    assert_eq!(bump, expected_bump);
}

#[test]
fn deposit_requires_signer() {
    let program_id = ident(1);
    let owner = ident(2);
    let caller = Caller { identity: owner, is_signer: false, lamports: 1000 };
    let vault = vault_for(&owner, &program_id, 0, Vec::new());
    assert_eq!(deposit(&program_id, &caller, &vault, 10), Err(ErrorKind::Unauthorized));
}

#[test]
fn deposit_requires_funds() {
    let program_id = ident(1);
    let owner = ident(2);
    let caller = Caller { identity: owner, is_signer: true, lamports: 9 };
    let vault = vault_for(&owner, &program_id, 0, Vec::new());
    assert_eq!(deposit(&program_id, &caller, &vault, 10), Err(ErrorKind::InsufficientFunds));
}

#[test]
fn deposit_rejects_wrong_vault_address() {
    let program_id = ident(1);
    let owner = ident(2);
    let caller = Caller { identity: owner, is_signer: true, lamports: 1000 };
    let vault = VaultAccount { address: ident(3), lamports: 0, data: Vec::new() };
    assert_eq!(deposit(&program_id, &caller, &vault, 10), Err(ErrorKind::AddressMismatch));
}

#[test]
fn first_deposit_creates_the_record() {
    let program_id = ident(1);
    let owner = ident(2);
    let caller = Caller { identity: owner, is_signer: true, lamports: 1000 };
    let vault = vault_for(&owner, &program_id, 0, Vec::new());
    let (_, bump) = vault_address_for(&owner, &program_id);
    let effect = deposit(&program_id, &caller, &vault, 1000).unwrap();
    assert!(effect.create_vault);
    assert_eq!(effect.bump, bump);
    assert_eq!(effect.transfer, 1000);
    assert_eq!(
        effect.record,
        VaultRecord { initialized: true, owner, balance: 1000 }
    );
}

#[test]
fn deposit_adds_exactly_the_amount() {
    let program_id = ident(1);
    let owner = ident(2);
    let caller = Caller { identity: owner, is_signer: true, lamports: 500 };
    let stored = VaultRecord { initialized: true, owner, balance: 700 };
    let vault = vault_for(&owner, &program_id, 700, encode(&stored));
    let effect = deposit(&program_id, &caller, &vault, 300).unwrap();
    assert!(!effect.create_vault);
    assert_eq!(effect.transfer, 300);
    assert_eq!(effect.record.balance, 1000);
    assert_eq!(effect.record.owner, owner);
}

#[test]
fn deposit_fails_closed_on_overflow() {
    let program_id = ident(1);
    let owner = ident(2);
    let caller = Caller { identity: owner, is_signer: true, lamports: 10 };
    let stored = VaultRecord { initialized: true, owner, balance: u64::MAX };
    let vault = vault_for(&owner, &program_id, 10, encode(&stored));
    assert_eq!(deposit(&program_id, &caller, &vault, 1), Err(ErrorKind::Overflow));
}

#[test]
fn deposit_rejects_uninitialized_record() {
    let program_id = ident(1);
    let owner = ident(2);
    let caller = Caller { identity: owner, is_signer: true, lamports: 10 };
    let stored = VaultRecord { initialized: false, owner, balance: 0 };
    let vault = vault_for(&owner, &program_id, 0, encode(&stored));
    assert_eq!(deposit(&program_id, &caller, &vault, 1), Err(ErrorKind::NotInitialized));
}

#[test]
fn deposit_rejects_corrupt_record() {
    let program_id = ident(1);
    let owner = ident(2);
    let caller = Caller { identity: owner, is_signer: true, lamports: 10 };
    let mut data = vec![0u8; RECORD_LEN];
    data[0] = 9;
    let vault = vault_for(&owner, &program_id, 0, data);
    assert_eq!(deposit(&program_id, &caller, &vault, 1), Err(ErrorKind::DecodeError));
}

#[test]
fn withdraw_requires_signer() {
    let program_id = ident(1);
    let owner = ident(2);
    let caller = Caller { identity: owner, is_signer: false, lamports: 0 };
    let stored = VaultRecord { initialized: true, owner, balance: 100 };
    let vault = vault_for(&owner, &program_id, 100, encode(&stored));
    assert_eq!(withdraw(&program_id, &caller, &vault), Err(ErrorKind::Unauthorized));
}

#[test]
fn withdraw_rejects_wrong_vault_address() {
    let program_id = ident(1);
    let owner = ident(2);
    let caller = Caller { identity: owner, is_signer: true, lamports: 0 };
    let vault = VaultAccount { address: ident(4), lamports: 100, data: Vec::new() };
    assert_eq!(withdraw(&program_id, &caller, &vault), Err(ErrorKind::AddressMismatch));
}

#[test]
fn withdraw_requires_an_existing_record() {
    let program_id = ident(1);
    let owner = ident(2);
    let caller = Caller { identity: owner, is_signer: true, lamports: 0 };
    let vault = vault_for(&owner, &program_id, 0, Vec::new());
    assert_eq!(withdraw(&program_id, &caller, &vault), Err(ErrorKind::NotInitialized));
}

#[test]
fn withdraw_rejects_corrupt_record() {
    let program_id = ident(1);
    let owner = ident(2);
    let caller = Caller { identity: owner, is_signer: true, lamports: 0 };
    let vault = vault_for(&owner, &program_id, 0, vec![3u8; RECORD_LEN]);
    assert_eq!(withdraw(&program_id, &caller, &vault), Err(ErrorKind::DecodeError));
}

#[test]
fn withdraw_pays_a_tenth() {
    let program_id = ident(1);
    let owner = ident(2);
    let caller = Caller { identity: owner, is_signer: true, lamports: 0 };
    let stored = VaultRecord { initialized: true, owner, balance: 1005 };
    let vault = vault_for(&owner, &program_id, 2000, encode(&stored));
    let effect = withdraw(&program_id, &caller, &vault).unwrap();
    assert_eq!(effect.payout, 100);
    assert_eq!(effect.record.balance, 905);
    assert_eq!(effect.record.owner, owner);
    assert!(effect.record.initialized);
}

#[test]
fn withdraw_below_ten_is_a_noop() {
    let program_id = ident(1);
    let owner = ident(2);
    let caller = Caller { identity: owner, is_signer: true, lamports: 0 };
    let stored = VaultRecord { initialized: true, owner, balance: 9 };
    let vault = vault_for(&owner, &program_id, 9, encode(&stored));
    let effect = withdraw(&program_id, &caller, &vault).unwrap();
    assert_eq!(effect.payout, 0);
    assert_eq!(effect.record.balance, 9);
}

#[test]
fn withdraw_guards_a_drained_vault() {
    let program_id = ident(1);
    let owner = ident(2);
    let caller = Caller { identity: owner, is_signer: true, lamports: 0 };
    let stored = VaultRecord { initialized: true, owner, balance: 1000 };
    // The account's funded value is below the payout of 100.
    let vault = vault_for(&owner, &program_id, 99, encode(&stored));
    assert_eq!(withdraw(&program_id, &caller, &vault), Err(ErrorKind::InsufficientFunds));
}

#[test]
fn scenario_deposit_then_withdraw_then_forbidden() {
    let program_id = ident(1);
    let owner_a = ident(2);
    let owner_b = ident(3);

    // Deposit 1000 on an empty vault: the record is created with that balance.
    let caller_a = Caller { identity: owner_a, is_signer: true, lamports: 1000 };
    let vault = vault_for(&owner_a, &program_id, 0, Vec::new());
    let created = deposit(&program_id, &caller_a, &vault, 1000).unwrap();
    assert!(created.create_vault);
    assert_eq!(created.record, VaultRecord { initialized: true, owner: owner_a, balance: 1000 });

    // Withdraw by the owner: payout 100, balance 900.
    let vault = vault_for(&owner_a, &program_id, 1000, encode(&created.record));
    let withdrawn = withdraw(&program_id, &caller_a, &vault).unwrap();
    assert_eq!(withdrawn.payout, 100);
    assert_eq!(withdrawn.record.balance, 900);

    // Withdraw by someone else at the owner's vault address: Forbidden, and
    // the stored record is untouched.
    let caller_b = Caller { identity: owner_b, is_signer: true, lamports: 0 };
    let vault = VaultAccount {
        address: vault_address_for(&owner_a, &program_id).0,
        lamports: 900,
        data: encode(&withdrawn.record),
    };
    assert_eq!(withdraw(&program_id, &caller_b, &vault), Err(ErrorKind::AddressMismatch));

    // Even at their own derived address, a caller who is not the stored
    // owner is rejected with Forbidden and the balance stays 900.
    let vault_b = vault_for(&owner_b, &program_id, 900, encode(&withdrawn.record));
    assert_eq!(withdraw(&program_id, &caller_b, &vault_b), Err(ErrorKind::Forbidden));
    assert_eq!(decode(vault_b.data.as_slice()).unwrap().balance, 900);
}

#[test]
fn process_instruction_dispatches() {
    let program_id = ident(1);
    let owner = ident(2);
    let caller = Caller { identity: owner, is_signer: true, lamports: 1000 };
    let vault = vault_for(&owner, &program_id, 0, Vec::new());

    let payload = borsh::to_vec(&(0u8, 250u64)).unwrap();
    match process_instruction(&program_id, &caller, &vault, payload.as_slice()).unwrap() {
        Effect::Deposited(e) => {
            assert_eq!(e.record.balance, 250);
            assert!(e.create_vault);
        }
        Effect::Withdrew(_) => panic!("a deposit payload must deposit"),
    }

    let stored = VaultRecord { initialized: true, owner, balance: 250 };
    let vault = vault_for(&owner, &program_id, 250, encode(&stored));
    match process_instruction(&program_id, &caller, &vault, &[1]).unwrap() {
        Effect::Withdrew(e) => {
            assert_eq!(e.payout, 25);
            assert_eq!(e.record.balance, 225);
        }
        Effect::Deposited(_) => panic!("a withdraw payload must withdraw"),
    }

    assert_eq!(
        process_instruction(&program_id, &caller, &vault, &[7, 7]),
        Err(ErrorKind::InvalidInstruction)
    );
}
