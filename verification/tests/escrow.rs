//! End-to-end tests of the escrow library: codecs, validation, and the
//! settlement and cancellation scenarios, with balances tracked the way the
//! host would apply the returned transfers.

use escrow::authority::derive_authority;
use escrow::error::EscrowError;
use escrow::identity::Identity;
use escrow::instruction::EscrowInstruction;
use escrow::processor::{Accounts, Outcome, Processor, RecordUpdate, Transfer};
use escrow::state::{Escrow, ESCROW_LEN};

fn id(b: u8) -> Identity {
    Identity::new([b; 32])
}

/// A tiny ledger: (identity tag, balance) pairs, as the host would hold them.
struct Ledger {
    entries: Vec<(Identity, u64)>,
}

impl Ledger {
    fn new() -> Ledger {
        Ledger { entries: Vec::new() }
    }

    fn set(&mut self, who: Identity, amount: u64) {
        self.entries.push((who, amount));
    }

    fn get(&self, who: &Identity) -> u64 {
        for (k, v) in &self.entries {
            if k == who {
                return *v;
            }
        }
        0
    }

    fn apply(&mut self, t: &Transfer) {
        let from = self.get(&t.source);
        let to = self.get(&t.destination);
        let amount = t.amount;
        let src = t.source;
        let dst = t.destination;
        self.entries.retain(|(k, _)| *k != src && *k != dst);
        self.entries.push((src, from - amount));
        self.entries.push((dst, to + amount));
    }
}

fn program_id() -> Identity {
    id(7)
}

fn derived_owner() -> Identity {
    derive_authority(&program_id()).expect("derivation must find a bump").0
}

/// Accounts for a fresh, never-written escrow slot.
fn fresh_accounts(signer: Identity, signed: bool) -> Accounts {
    Accounts {
        signer,
        signer_is_signer: signed,
        escrow_data: vec![0u8; ESCROW_LEN],
        escrow_rent_exempt: true,
        custody_account: id(40),
        custody_owner: derived_owner(),
        custody_balance: 100,
        counterparty: id(2),
        asset_mint: id(3),
    }
}

/// Accounts holding an open record, as left behind by a successful init.
fn open_accounts(record: &Escrow, signer: Identity, signed: bool) -> Accounts {
    Accounts {
        signer,
        signer_is_signer: signed,
        escrow_data: record.pack(),
        escrow_rent_exempt: true,
        custody_account: record.custody_account,
        custody_owner: derived_owner(),
        custody_balance: 100,
        counterparty: id(0),
        asset_mint: id(0),
    }
}

fn init_record() -> Escrow {
    let accounts = fresh_accounts(id(1), true);
    let data = EscrowInstruction::InitEscrow { amount: 50 }.pack();
    let outcome = Processor::process(&program_id(), &accounts, &data).expect("init must succeed");
    match outcome.record {
        RecordUpdate::Write(rec) => rec,
        RecordUpdate::Close => panic!("init must write, not close"),
    }
}

#[test]
fn instruction_round_trips() {
    let cases = [
        EscrowInstruction::InitEscrow { amount: 0 },
        EscrowInstruction::InitEscrow { amount: 50 },
        EscrowInstruction::Confirm,
        EscrowInstruction::Exchange { amount: u64::MAX },
        EscrowInstruction::Cancel,
    ];
    for case in &cases {
        let bytes = case.pack();
        assert_eq!(EscrowInstruction::unpack(&bytes), Ok(*case));
    }
}

#[test]
fn instruction_wire_format_is_fixed() {
    let bytes = EscrowInstruction::InitEscrow { amount: 5 }.pack();
    assert_eq!(bytes, vec![0u8, 5, 0, 0, 0, 0, 0, 0, 0]);
    assert_eq!(EscrowInstruction::Confirm.pack(), vec![1u8]);
    let bytes = EscrowInstruction::Exchange { amount: 258 }.pack();
    assert_eq!(bytes, vec![2u8, 2, 1, 0, 0, 0, 0, 0, 0]);
    assert_eq!(EscrowInstruction::Cancel.pack(), vec![3u8]);
}

#[test]
fn instruction_unpack_rejects_malformed_buffers() {
    assert_eq!(EscrowInstruction::unpack(&[]), Err(EscrowError::InvalidInstruction));
    assert_eq!(EscrowInstruction::unpack(&[4]), Err(EscrowError::InvalidInstruction));
    // Truncated payload.
    assert_eq!(EscrowInstruction::unpack(&[0, 1, 2]), Err(EscrowError::InvalidInstruction));
    // Oversized payload.
    assert_eq!(
        EscrowInstruction::unpack(&[1, 0]),
        Err(EscrowError::InvalidInstruction)
    );
    assert_eq!(
        EscrowInstruction::unpack(&[2, 1, 2, 3, 4, 5, 6, 7, 8, 9]),
        Err(EscrowError::InvalidInstruction)
    );
}

#[test]
fn record_round_trips() {
    let record = Escrow {
        is_initialized: true,
        initializer: id(1),
        counterparty: id(2),
        asset_mint: id(3),
        custody_account: id(4),
        expected_amount: 0x0102030405060708,
        confirmed: false,
    };
    let bytes = record.pack();
    assert_eq!(bytes.len(), ESCROW_LEN);
    assert_eq!(Escrow::unpack(&bytes), Ok(record));
    // The other direction: bytes -> record -> the same bytes.
    let decoded = Escrow::unpack(&bytes).unwrap();
    assert_eq!(decoded.pack(), bytes);
}

#[test]
fn record_layout_is_fixed() {
    let record = Escrow {
        is_initialized: true,
        initializer: id(1),
        counterparty: id(2),
        asset_mint: id(3),
        custody_account: id(4),
        expected_amount: 50,
        confirmed: true,
    };
    let bytes = record.pack();
    assert_eq!(bytes[0], 1);
    assert_eq!(&bytes[1..33], &[1u8; 32]);
    assert_eq!(&bytes[33..65], &[2u8; 32]);
    assert_eq!(&bytes[65..97], &[3u8; 32]);
    assert_eq!(&bytes[97..129], &[4u8; 32]);
    assert_eq!(&bytes[129..137], &[50, 0, 0, 0, 0, 0, 0, 0]);
    assert_eq!(bytes[137], 1);
}

#[test]
fn record_unpack_rejects_malformed_buffers() {
    assert_eq!(Escrow::unpack(&[]), Err(EscrowError::InvalidState));
    assert_eq!(Escrow::unpack(&[0u8; 137]), Err(EscrowError::InvalidState));
    assert_eq!(Escrow::unpack(&[0u8; 139]), Err(EscrowError::InvalidState));
    let mut bad_flag = vec![0u8; ESCROW_LEN];
    bad_flag[0] = 2;
    assert_eq!(Escrow::unpack(&bad_flag), Err(EscrowError::InvalidState));
    let mut bad_confirm = vec![0u8; ESCROW_LEN];
    bad_confirm[137] = 9;
    assert_eq!(Escrow::unpack(&bad_confirm), Err(EscrowError::InvalidState));
}

#[test]
fn zeroed_storage_is_not_an_initialized_record() {
    let rec = Escrow::unpack(&vec![0u8; ESCROW_LEN]).unwrap();
    assert!(!rec.is_initialized());
}

#[test]
fn error_codes_are_distinct() {
    let kinds = [
        EscrowError::InvalidInstruction,
        EscrowError::NotRentExempt,
        EscrowError::ExpectedAmountMismatch,
        EscrowError::AuthorityMismatch,
        EscrowError::InvalidState,
        EscrowError::InvalidOwner,
        EscrowError::AlreadyInitialized,
    ];
    for (i, k) in kinds.iter().enumerate() {
        assert_eq!(k.code(), i as u32);
    }
}

#[test]
fn derived_authority_is_not_the_program_id() {
    let pid = program_id();
    let (authority, _bump) = derive_authority(&pid).expect("derivation must find a bump");
    assert_ne!(authority, pid);
    // Deterministic: the same program identity derives the same authority.
    assert_eq!(derive_authority(&pid), derive_authority(&pid));
}

#[test]
fn init_writes_the_full_record() {
    let accounts = fresh_accounts(id(1), true);
    let data = EscrowInstruction::InitEscrow { amount: 50 }.pack();
    let outcome = Processor::process(&program_id(), &accounts, &data).expect("init must succeed");
    let expected_record = Escrow {
        is_initialized: true,
        initializer: id(1),
        counterparty: id(2),
        asset_mint: id(3),
        custody_account: id(40),
        expected_amount: 50,
        confirmed: false,
    };
    assert_eq!(
        outcome,
        Outcome {
            record: RecordUpdate::Write(expected_record),
            asset_transfer: None,
            value_transfer: None,
            rent_refund: None,
        }
    );
    // Encode then decode of the new record returns the identical structure.
    assert_eq!(Escrow::unpack(&expected_record.pack()), Ok(expected_record));
}

#[test]
fn init_on_initialized_record_fails_already_initialized() {
    let record = init_record();
    let accounts = open_accounts(&record, id(1), true);
    let before = accounts.escrow_data.clone();
    let data = EscrowInstruction::InitEscrow { amount: 9 }.pack();
    assert_eq!(
        Processor::process(&program_id(), &accounts, &data),
        Err(EscrowError::AlreadyInitialized)
    );
    // The record bytes are untouched.
    assert_eq!(accounts.escrow_data, before);
}

#[test]
fn init_requires_signature_rent_amount_and_owner() {
    let data = EscrowInstruction::InitEscrow { amount: 50 }.pack();
    let pid = program_id();

    let unsigned = fresh_accounts(id(1), false);
    assert_eq!(Processor::process(&pid, &unsigned, &data), Err(EscrowError::AuthorityMismatch));

    let mut not_exempt = fresh_accounts(id(1), true);
    not_exempt.escrow_rent_exempt = false;
    assert_eq!(Processor::process(&pid, &not_exempt, &data), Err(EscrowError::NotRentExempt));

    let zero = EscrowInstruction::InitEscrow { amount: 0 }.pack();
    let accounts = fresh_accounts(id(1), true);
    assert_eq!(Processor::process(&pid, &accounts, &zero), Err(EscrowError::InvalidInstruction));

    let mut foreign_owner = fresh_accounts(id(1), true);
    foreign_owner.custody_owner = id(1);
    assert_eq!(Processor::process(&pid, &foreign_owner, &data), Err(EscrowError::InvalidOwner));
}

#[test]
fn confirm_sets_the_flag() {
    let record = init_record();
    let accounts = open_accounts(&record, id(2), true);
    let outcome = Processor::process(&program_id(), &accounts, &[1u8]).expect(
        "confirm by the counterparty must succeed",
    );
    match outcome.record {
        RecordUpdate::Write(updated) => {
            assert!(updated.confirmed);
            assert_eq!(Escrow { confirmed: false, ..updated }, record);
        }
        RecordUpdate::Close => panic!("confirm must write, not close"),
    }
    assert_eq!(outcome.asset_transfer, None);
    assert_eq!(outcome.value_transfer, None);
}

#[test]
fn confirm_by_wrong_party_fails_authority_mismatch() {
    let record = init_record();
    let accounts = open_accounts(&record, id(1), true);
    assert_eq!(
        Processor::process(&program_id(), &accounts, &[1u8]),
        Err(EscrowError::AuthorityMismatch)
    );
}

/// Scenario: the initializer locks 100 units, expecting 50; the counterparty
/// exchanges 50. The counterparty's asset balance rises by 100, the
/// initializer's value balance by 50, custody empties, the record closes and
/// rent returns to the initializer.
#[test]
fn scenario_exchange_settles_the_trade() {
    let record = init_record();
    let accounts = open_accounts(&record, id(2), true);
    let data = EscrowInstruction::Exchange { amount: 50 }.pack();
    let outcome = Processor::process(&program_id(), &accounts, &data).expect(
        "exchange with the exact amount must succeed",
    );
    assert_eq!(outcome.record, RecordUpdate::Close);
    assert_eq!(outcome.rent_refund, Some(id(1)));

    let mut assets = Ledger::new();
    assets.set(record.custody_account, 100);
    assets.set(id(2), 0);
    let mut values = Ledger::new();
    values.set(id(2), 75);
    values.set(id(1), 0);

    assets.apply(&outcome.asset_transfer.expect("exchange moves the asset"));
    values.apply(&outcome.value_transfer.expect("exchange moves the counter-value"));

    assert_eq!(assets.get(&id(2)), 100);
    assert_eq!(assets.get(&record.custody_account), 0);
    assert_eq!(values.get(&id(1)), 50);
    assert_eq!(values.get(&id(2)), 25);
}

/// Scenario: the initializer cancels before any exchange. The locked 100
/// units return to the initializer, the record closes and rent returns; a
/// later exchange against the closed slot fails `InvalidState`.
#[test]
fn scenario_cancel_returns_the_asset() {
    let record = init_record();
    let accounts = open_accounts(&record, id(1), true);
    let outcome = Processor::process(&program_id(), &accounts, &[3u8]).expect(
        "cancel by the initializer must succeed",
    );
    assert_eq!(outcome.record, RecordUpdate::Close);
    assert_eq!(outcome.value_transfer, None);
    assert_eq!(outcome.rent_refund, Some(id(1)));

    let mut assets = Ledger::new();
    assets.set(record.custody_account, 100);
    assets.set(id(1), 0);
    assets.apply(&outcome.asset_transfer.expect("cancel returns the asset"));
    assert_eq!(assets.get(&id(1)), 100);
    assert_eq!(assets.get(&record.custody_account), 0);

    // The host zeroes a closed record's storage; the slot no longer admits
    // settlement.
    let mut closed = open_accounts(&record, id(2), true);
    closed.escrow_data = vec![0u8; ESCROW_LEN];
    let data = EscrowInstruction::Exchange { amount: 50 }.pack();
    assert_eq!(
        Processor::process(&program_id(), &closed, &data),
        Err(EscrowError::InvalidState)
    );
}

/// Scenario: the counterparty offers 49 against an expected 50: the call
/// fails `ExpectedAmountMismatch` and there is nothing for the host to apply.
#[test]
fn scenario_wrong_amount_changes_nothing() {
    let record = init_record();
    let accounts = open_accounts(&record, id(2), true);
    let before = accounts.escrow_data.clone();
    let data = EscrowInstruction::Exchange { amount: 49 }.pack();
    assert_eq!(
        Processor::process(&program_id(), &accounts, &data),
        Err(EscrowError::ExpectedAmountMismatch)
    );
    assert_eq!(accounts.escrow_data, before);
}

#[test]
fn exchange_by_wrong_party_fails_authority_mismatch() {
    let record = init_record();
    let data = EscrowInstruction::Exchange { amount: 50 }.pack();
    // The initializer is not the required role for exchange.
    let wrong_role = open_accounts(&record, id(1), true);
    assert_eq!(
        Processor::process(&program_id(), &wrong_role, &data),
        Err(EscrowError::AuthorityMismatch)
    );
    // The right party without a signature fails too.
    let unsigned = open_accounts(&record, id(2), false);
    assert_eq!(
        Processor::process(&program_id(), &unsigned, &data),
        Err(EscrowError::AuthorityMismatch)
    );
}

#[test]
fn cancel_by_wrong_party_fails_authority_mismatch() {
    let record = init_record();
    let wrong_role = open_accounts(&record, id(2), true);
    assert_eq!(
        Processor::process(&program_id(), &wrong_role, &[3u8]),
        Err(EscrowError::AuthorityMismatch)
    );
    let unsigned = open_accounts(&record, id(1), false);
    assert_eq!(
        Processor::process(&program_id(), &unsigned, &[3u8]),
        Err(EscrowError::AuthorityMismatch)
    );
}

#[test]
fn exchange_on_foreign_custody_account_fails_invalid_owner() {
    let record = init_record();
    let data = EscrowInstruction::Exchange { amount: 50 }.pack();
    // A custody account other than the record's.
    let mut wrong_account = open_accounts(&record, id(2), true);
    wrong_account.custody_account = id(41);
    assert_eq!(
        Processor::process(&program_id(), &wrong_account, &data),
        Err(EscrowError::InvalidOwner)
    );
    // The record's custody account, but not owned by the derived authority.
    let mut wrong_owner = open_accounts(&record, id(2), true);
    wrong_owner.custody_owner = id(2);
    assert_eq!(
        Processor::process(&program_id(), &wrong_owner, &data),
        Err(EscrowError::InvalidOwner)
    );
}

#[test]
fn process_rejects_garbage_instruction_bytes() {
    let record = init_record();
    let accounts = open_accounts(&record, id(2), true);
    assert_eq!(
        Processor::process(&program_id(), &accounts, &[77u8, 1, 2]),
        Err(EscrowError::InvalidInstruction)
    );
}
