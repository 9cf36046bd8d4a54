//! The instruction processor: a pure, single-pass validate-then-decide state
//! machine.
//!
//! The host invokes [`Processor::process`] once per submitted instruction,
//! hands it the relevant account facts as plain values, and commits all of an
//! invocation's effects together or not at all. The processor therefore
//! performs no writes itself: it returns an [`Outcome`] naming the record
//! write (or closure), the at most two asset-movement legs, and the rent
//! refund that the host must perform, or an error, in which case nothing at
//! all is to be performed.

use vstd::prelude::*;
use crate::authority::derive_authority;
use crate::authority::spec_derived_view;
use crate::authority::spec_under_program_control;
use crate::error::EscrowError;
use crate::identity::Identity;
use crate::instruction::EscrowInstruction;
use crate::instruction::spec_instruction_unpack;
use crate::state::Escrow;
use crate::state::EscrowView;
use crate::state::spec_unpack;
use crate::state::spec_unpack_result_view;

verus! {

/// The account facts one invocation reads, as plain values. The host (which
/// enforces the positional account contract) looks them up and passes them
/// in; `counterparty` and `asset_mint` are read only by `InitEscrow`.
#[derive(Debug)]
pub struct Accounts {
    /// The party that submitted the instruction.
    pub signer: Identity,
    /// Whether the host verified `signer`'s cryptographic signature.
    pub signer_is_signer: bool,
    /// The escrow record account's stored bytes.
    pub escrow_data: Vec<u8>,
    /// Whether the escrow record account's funding meets the host's
    /// rent-exemption threshold.
    pub escrow_rent_exempt: bool,
    /// The custody account holding the locked asset.
    pub custody_account: Identity,
    /// The recorded owner of the custody account.
    pub custody_owner: Identity,
    /// The quantity of the asset the custody account holds.
    pub custody_balance: u64,
    /// For `InitEscrow`: the party expected to complete the trade.
    pub counterparty: Identity,
    /// For `InitEscrow`: the fungible-asset type under custody.
    pub asset_mint: Identity,
}

/// The mathematical view of [`Accounts`].
#[verifier::ext_equal]
pub ghost struct AccountsView {
    pub signer: Seq<u8>,
    pub signer_is_signer: bool,
    pub escrow_data: Seq<u8>,
    pub escrow_rent_exempt: bool,
    pub custody_account: Seq<u8>,
    pub custody_owner: Seq<u8>,
    pub custody_balance: u64,
    pub counterparty: Seq<u8>,
    pub asset_mint: Seq<u8>,
}

impl AccountsView {
    /// Well-formedness: every identity is exactly 32 bytes. The view of any
    /// executable `Accounts` is well formed by construction.
    pub open spec fn wf(self) -> bool {
        &&& self.signer.len() == 32
        &&& self.custody_account.len() == 32
        &&& self.custody_owner.len() == 32
        &&& self.counterparty.len() == 32
        &&& self.asset_mint.len() == 32
    }
}

impl View for Accounts {
    type V = AccountsView;

    open spec fn view(&self) -> AccountsView {
        AccountsView {
            signer: self.signer@,
            signer_is_signer: self.signer_is_signer,
            escrow_data: self.escrow_data@,
            escrow_rent_exempt: self.escrow_rent_exempt,
            custody_account: self.custody_account@,
            custody_owner: self.custody_owner@,
            custody_balance: self.custody_balance,
            counterparty: self.counterparty@,
            asset_mint: self.asset_mint@,
        }
    }
}

/// One asset-movement leg the host must perform: `amount` units from
/// `source` to `destination`.
#[derive(Clone, Copy, Debug, PartialEq, Eq)]
pub struct Transfer {
    pub source: Identity,
    pub destination: Identity,
    pub amount: u64,
}

/// The mathematical view of [`Transfer`].
#[verifier::ext_equal]
pub ghost struct TransferView {
    pub source: Seq<u8>,
    pub destination: Seq<u8>,
    pub amount: u64,
}

impl View for Transfer {
    type V = TransferView;

    open spec fn view(&self) -> TransferView {
        TransferView { source: self.source@, destination: self.destination@, amount: self.amount }
    }
}

/// What becomes of the escrow record: written back in full, or destroyed
/// (zeroed and closed, its storage rent returned).
#[derive(Clone, Copy, Debug, PartialEq, Eq)]
pub enum RecordUpdate<R> {
    Write(R),
    Close,
}

/// Everything one successful invocation asks the host to perform.
#[derive(Clone, Copy, Debug, PartialEq, Eq)]
pub struct Outcome {
    /// The record write or closure.
    pub record: RecordUpdate<Escrow>,
    /// The leg moving the locked asset out of custody, if any.
    pub asset_transfer: Option<Transfer>,
    /// The leg moving the counter-value to the initializer, if any.
    pub value_transfer: Option<Transfer>,
    /// Who receives the closed record's storage rent, if the record closes.
    pub rent_refund: Option<Identity>,
}

/// The mathematical view of [`Outcome`].
#[verifier::ext_equal]
pub ghost struct OutcomeView {
    pub record: RecordUpdate<EscrowView>,
    pub asset_transfer: Option<TransferView>,
    pub value_transfer: Option<TransferView>,
    pub rent_refund: Option<Seq<u8>>,
}

impl View for Outcome {
    type V = OutcomeView;

    open spec fn view(&self) -> OutcomeView {
        OutcomeView {
            record: match self.record {
                RecordUpdate::Write(e) => RecordUpdate::Write(e@),
                RecordUpdate::Close => RecordUpdate::Close,
            },
            asset_transfer: match self.asset_transfer {
                Some(t) => Some(t@),
                None => None,
            },
            value_transfer: match self.value_transfer {
                Some(t) => Some(t@),
                None => None,
            },
            rent_refund: match self.rent_refund {
                Some(i) => Some(i@),
                None => None,
            },
        }
    }
}

/// Lifts a processing result to the view level, for contracts.
pub open spec fn spec_outcome_result_view(r: Result<Outcome, EscrowError>) -> Result<
    OutcomeView,
    EscrowError,
> {
    match r {
        Ok(o) => Ok(o@),
        Err(e) => Err(e),
    }
}

/// What `InitEscrow(amount)` does. Checks run in this order: the record must
/// decode and be uninitialized, the initializer must have signed, the record
/// storage must be rent-exempt, the amount must be positive, and the custody
/// account must already be owned by the program's derived authority. On
/// success the full record is written: the signer becomes the initializer,
/// and the supplied counterparty, asset type, custody account and amount are
/// fixed for the record's lifetime.
pub open spec fn spec_init_escrow(program_id: Seq<u8>, a: AccountsView, amount: u64) -> Result<
    OutcomeView,
    EscrowError,
> {
    match spec_unpack(a.escrow_data) {
        Err(e) => Err(e),
        Ok(rec) => if rec.is_initialized {
            Err(EscrowError::AlreadyInitialized)
        } else if !a.signer_is_signer {
            Err(EscrowError::AuthorityMismatch)
        } else if !a.escrow_rent_exempt {
            Err(EscrowError::NotRentExempt)
        } else if amount == 0 {
            Err(EscrowError::InvalidInstruction)
        } else if !spec_under_program_control(program_id, a.custody_owner) {
            Err(EscrowError::InvalidOwner)
        } else {
            Ok(
                OutcomeView {
                    record: RecordUpdate::Write(
                        EscrowView {
                            is_initialized: true,
                            initializer: a.signer,
                            counterparty: a.counterparty,
                            asset_mint: a.asset_mint,
                            custody_account: a.custody_account,
                            expected_amount: amount,
                            confirmed: false,
                        },
                    ),
                    asset_transfer: None,
                    value_transfer: None,
                    rent_refund: None,
                },
            )
        },
    }
}

/// What `Confirm` does: on an open record, under the counterparty's
/// signature, set the confirmation flag and write the record back; nothing
/// else changes.
pub open spec fn spec_confirm(a: AccountsView) -> Result<OutcomeView, EscrowError> {
    match spec_unpack(a.escrow_data) {
        Err(e) => Err(e),
        Ok(rec) => if !rec.is_initialized {
            Err(EscrowError::InvalidState)
        } else if !a.signer_is_signer || a.signer != rec.counterparty {
            Err(EscrowError::AuthorityMismatch)
        } else {
            Ok(
                OutcomeView {
                    record: RecordUpdate::Write(EscrowView { confirmed: true, ..rec }),
                    asset_transfer: None,
                    value_transfer: None,
                    rent_refund: None,
                },
            )
        },
    }
}

/// What `Exchange(amount)` does. Confirmation is an optional intermediate
/// step, not a settlement precondition, so the confirmation flag is not
/// examined here. Checks run in this order: the record must
/// decode and be open, the counterparty must have signed, the amount must
/// equal the record's expected amount exactly (no tolerance, no partial
/// settlement), the custody account passed must be the record's, and its
/// owner must be the derived authority. On success the whole locked asset
/// balance moves from custody to the counterparty, the expected counter-value
/// moves from the counterparty to the initializer, and the record is
/// destroyed, its rent returned to the initializer.
pub open spec fn spec_exchange(program_id: Seq<u8>, a: AccountsView, amount: u64) -> Result<
    OutcomeView,
    EscrowError,
> {
    match spec_unpack(a.escrow_data) {
        Err(e) => Err(e),
        Ok(rec) => if !rec.is_initialized {
            Err(EscrowError::InvalidState)
        } else if !a.signer_is_signer || a.signer != rec.counterparty {
            Err(EscrowError::AuthorityMismatch)
        } else if amount != rec.expected_amount {
            Err(EscrowError::ExpectedAmountMismatch)
        } else if a.custody_account != rec.custody_account {
            Err(EscrowError::InvalidOwner)
        } else if !spec_under_program_control(program_id, a.custody_owner) {
            Err(EscrowError::InvalidOwner)
        } else {
            Ok(
                OutcomeView {
                    record: RecordUpdate::Close,
                    asset_transfer: Some(
                        TransferView {
                            source: rec.custody_account,
                            destination: a.signer,
                            amount: a.custody_balance,
                        },
                    ),
                    value_transfer: Some(
                        TransferView {
                            source: a.signer,
                            destination: rec.initializer,
                            amount: rec.expected_amount,
                        },
                    ),
                    rent_refund: Some(rec.initializer),
                },
            )
        },
    }
}

/// What `Cancel` does: on an open record, under the initializer's signature,
/// the whole locked asset balance moves from custody back to the
/// initializer, and the record is destroyed, its rent returned to the
/// initializer. The abort path trusts the record alone for the custody
/// account; the host's positional account contract supplies the matching
/// account.
pub open spec fn spec_cancel(a: AccountsView) -> Result<OutcomeView, EscrowError> {
    match spec_unpack(a.escrow_data) {
        Err(e) => Err(e),
        Ok(rec) => if !rec.is_initialized {
            Err(EscrowError::InvalidState)
        } else if !a.signer_is_signer || a.signer != rec.initializer {
            Err(EscrowError::AuthorityMismatch)
        } else {
            Ok(
                OutcomeView {
                    record: RecordUpdate::Close,
                    asset_transfer: Some(
                        TransferView {
                            source: rec.custody_account,
                            destination: rec.initializer,
                            amount: a.custody_balance,
                        },
                    ),
                    value_transfer: None,
                    rent_refund: Some(rec.initializer),
                },
            )
        },
    }
}

/// What one whole invocation does: decode the instruction buffer, then apply
/// the transition it names.
pub open spec fn spec_process(program_id: Seq<u8>, a: AccountsView, data: Seq<u8>) -> Result<
    OutcomeView,
    EscrowError,
> {
    match spec_instruction_unpack(data) {
        Err(e) => Err(e),
        Ok(instruction) => match instruction {
            EscrowInstruction::InitEscrow { amount } => spec_init_escrow(program_id, a, amount),
            EscrowInstruction::Confirm => spec_confirm(a),
            EscrowInstruction::Exchange { amount } => spec_exchange(program_id, a, amount),
            EscrowInstruction::Cancel => spec_cancel(a),
        },
    }
}

/// The top-level orchestrator: decode, load, validate, decide.
pub struct Processor;

impl Processor {
    /// Processes one instruction against the given account facts and returns
    /// what the host must perform, or the specific error that aborts the
    /// invocation (in which case nothing is performed and no state changes).
    pub fn process(program_id: &Identity, accounts: &Accounts, instruction_data: &[u8]) -> (r:
        Result<Outcome, EscrowError>)
        ensures
            spec_outcome_result_view(r) == spec_process(
                program_id@,
                accounts@,
                instruction_data@,
            ),
    {
        let instruction = match EscrowInstruction::unpack(instruction_data) {
            Ok(instruction) => instruction,
            Err(e) => {
                return Err(e);
            },
        };
        match instruction {
            EscrowInstruction::InitEscrow { amount } => Self::process_init_escrow(
                program_id,
                accounts,
                amount,
            ),
            EscrowInstruction::Confirm => Self::process_confirm(accounts),
            EscrowInstruction::Exchange { amount } => Self::process_exchange(
                program_id,
                accounts,
                amount,
            ),
            EscrowInstruction::Cancel => Self::process_cancel(accounts),
        }
    }

    /// Loads the record and applies the `InitEscrow` transition.
    fn process_init_escrow(program_id: &Identity, accounts: &Accounts, amount: u64) -> (r: Result<
        Outcome,
        EscrowError,
    >)
        ensures
            spec_outcome_result_view(r) == spec_init_escrow(program_id@, accounts@, amount),
    {
        let rec = match Escrow::unpack(accounts.escrow_data.as_slice()) {
            Ok(rec) => rec,
            Err(e) => {
                return Err(e);
            },
        };
        if rec.is_initialized() {
            return Err(EscrowError::AlreadyInitialized);
        }
        if !accounts.signer_is_signer {
            return Err(EscrowError::AuthorityMismatch);
        }
        if !accounts.escrow_rent_exempt {
            return Err(EscrowError::NotRentExempt);
        }
        if amount == 0 {
            return Err(EscrowError::InvalidInstruction);
        }
        let authority = match derive_authority(program_id) {
            Some(p) => p.0,
            None => {
                return Err(EscrowError::InvalidOwner);
            },
        };
        if !accounts.custody_owner.eq_id(&authority) {
            return Err(EscrowError::InvalidOwner);
        }
        let record = Escrow {
            is_initialized: true,
            initializer: accounts.signer,
            counterparty: accounts.counterparty,
            asset_mint: accounts.asset_mint,
            custody_account: accounts.custody_account,
            expected_amount: amount,
            confirmed: false,
        };
        Ok(
            Outcome {
                record: RecordUpdate::Write(record),
                asset_transfer: None,
                value_transfer: None,
                rent_refund: None,
            },
        )
    }

    /// Loads the record and applies the `Confirm` transition.
    fn process_confirm(accounts: &Accounts) -> (r: Result<Outcome, EscrowError>)
        ensures
            spec_outcome_result_view(r) == spec_confirm(accounts@),
    {
        let rec = match Escrow::unpack(accounts.escrow_data.as_slice()) {
            Ok(rec) => rec,
            Err(e) => {
                return Err(e);
            },
        };
        if !rec.is_initialized() {
            return Err(EscrowError::InvalidState);
        }
        if !accounts.signer_is_signer || !accounts.signer.eq_id(&rec.counterparty) {
            return Err(EscrowError::AuthorityMismatch);
        }
        let updated = Escrow { confirmed: true, ..rec };
        Ok(
            Outcome {
                record: RecordUpdate::Write(updated),
                asset_transfer: None,
                value_transfer: None,
                rent_refund: None,
            },
        )
    }

    /// Loads the record and applies the `Exchange` transition.
    fn process_exchange(program_id: &Identity, accounts: &Accounts, amount: u64) -> (r: Result<
        Outcome,
        EscrowError,
    >)
        ensures
            spec_outcome_result_view(r) == spec_exchange(program_id@, accounts@, amount),
    {
        let rec = match Escrow::unpack(accounts.escrow_data.as_slice()) {
            Ok(rec) => rec,
            Err(e) => {
                return Err(e);
            },
        };
        if !rec.is_initialized() {
            return Err(EscrowError::InvalidState);
        }
        if !accounts.signer_is_signer || !accounts.signer.eq_id(&rec.counterparty) {
            return Err(EscrowError::AuthorityMismatch);
        }
        if amount != rec.expected_amount {
            return Err(EscrowError::ExpectedAmountMismatch);
        }
        if !accounts.custody_account.eq_id(&rec.custody_account) {
            return Err(EscrowError::InvalidOwner);
        }
        let authority = match derive_authority(program_id) {
            Some(p) => p.0,
            None => {
                return Err(EscrowError::InvalidOwner);
            },
        };
        if !accounts.custody_owner.eq_id(&authority) {
            return Err(EscrowError::InvalidOwner);
        }
        Ok(
            Outcome {
                record: RecordUpdate::Close,
                asset_transfer: Some(
                    Transfer {
                        source: rec.custody_account,
                        destination: accounts.signer,
                        amount: accounts.custody_balance,
                    },
                ),
                value_transfer: Some(
                    Transfer {
                        source: accounts.signer,
                        destination: rec.initializer,
                        amount: rec.expected_amount,
                    },
                ),
                rent_refund: Some(rec.initializer),
            },
        )
    }

    /// Loads the record and applies the `Cancel` transition.
    fn process_cancel(accounts: &Accounts) -> (r: Result<Outcome, EscrowError>)
        ensures
            spec_outcome_result_view(r) == spec_cancel(accounts@),
    {
        let rec = match Escrow::unpack(accounts.escrow_data.as_slice()) {
            Ok(rec) => rec,
            Err(e) => {
                return Err(e);
            },
        };
        if !rec.is_initialized() {
            return Err(EscrowError::InvalidState);
        }
        if !accounts.signer_is_signer || !accounts.signer.eq_id(&rec.initializer) {
            return Err(EscrowError::AuthorityMismatch);
        }
        Ok(
            Outcome {
                record: RecordUpdate::Close,
                asset_transfer: Some(
                    Transfer {
                        source: rec.custody_account,
                        destination: rec.initializer,
                        amount: accounts.custody_balance,
                    },
                ),
                value_transfer: None,
                rent_refund: Some(rec.initializer),
            },
        )
    }
}

/// Law: on an uninitialized, rent-exempt record, with the initializer's
/// signature present, a positive amount, and the custody account under
/// program control, `InitEscrow` succeeds; the written record carries
/// exactly the supplied identities and amount, and decoding its encoding
/// returns the identical record.
pub proof fn lemma_init_escrow_initializes(program_id: Seq<u8>, a: AccountsView, amount: u64)
    requires
        a.wf(),
        spec_unpack(a.escrow_data) matches Ok(rec) && !rec.is_initialized,
        a.signer_is_signer,
        a.escrow_rent_exempt,
        amount > 0,
        spec_under_program_control(program_id, a.custody_owner),
    ensures
        spec_init_escrow(program_id, a, amount) matches Ok(o) && o.record matches RecordUpdate::Write(rec)
            && rec == (EscrowView {
            is_initialized: true,
            initializer: a.signer,
            counterparty: a.counterparty,
            asset_mint: a.asset_mint,
            custody_account: a.custody_account,
            expected_amount: amount,
            confirmed: false,
        }) && crate::state::spec_unpack(crate::state::spec_pack(rec)) == Ok::<
            EscrowView,
            EscrowError,
        >(rec),
        spec_init_escrow(program_id, a, amount)->Ok_0.asset_transfer is None,
        spec_init_escrow(program_id, a, amount)->Ok_0.value_transfer is None,
        spec_init_escrow(program_id, a, amount)->Ok_0.rent_refund is None,
{
    let rec = spec_init_escrow(program_id, a, amount)->Ok_0.record->Write_0;
    crate::state::lemma_unpack_of_pack(rec);
}

/// Law: `InitEscrow` on an already-initialized record always fails
/// `AlreadyInitialized`, whoever signed and whatever the amount. An error
/// carries no outcome, so the host performs nothing and the record bytes
/// stay byte-identical.
pub proof fn lemma_init_escrow_already_initialized(
    program_id: Seq<u8>,
    a: AccountsView,
    amount: u64,
)
    requires
        spec_unpack(a.escrow_data) matches Ok(rec) && rec.is_initialized,
    ensures
        spec_init_escrow(program_id, a, amount) == Err::<OutcomeView, EscrowError>(
            EscrowError::AlreadyInitialized,
        ),
{
}

/// Law: `Exchange` under the counterparty's signature with an amount other
/// than the record's expected amount always fails `ExpectedAmountMismatch`,
/// so no balance and no record change. (An unauthorized call fails
/// `AuthorityMismatch` before the amount is even examined.)
pub proof fn lemma_exchange_amount_mismatch(program_id: Seq<u8>, a: AccountsView, amount: u64)
    requires
        spec_unpack(a.escrow_data) matches Ok(rec) && rec.is_initialized && a.signer
            == rec.counterparty && amount != rec.expected_amount,
        a.signer_is_signer,
    ensures
        spec_exchange(program_id, a, amount) == Err::<OutcomeView, EscrowError>(
            EscrowError::ExpectedAmountMismatch,
        ),
{
}

/// Law: `Exchange` on an open record signed by any party other than the
/// record's counterparty — or not signed at all — always fails
/// `AuthorityMismatch`, so no balance and no record change.
pub proof fn lemma_exchange_wrong_authority(program_id: Seq<u8>, a: AccountsView, amount: u64)
    requires
        spec_unpack(a.escrow_data) matches Ok(rec) && rec.is_initialized,
        !(a.signer_is_signer && a.signer == spec_unpack(a.escrow_data)->Ok_0.counterparty),
    ensures
        spec_exchange(program_id, a, amount) == Err::<OutcomeView, EscrowError>(
            EscrowError::AuthorityMismatch,
        ),
{
}

/// Law: `Cancel` on an open record signed by any party other than the
/// record's initializer — or not signed at all — always fails
/// `AuthorityMismatch`, so no balance and no record change.
pub proof fn lemma_cancel_wrong_authority(a: AccountsView)
    requires
        spec_unpack(a.escrow_data) matches Ok(rec) && rec.is_initialized,
        !(a.signer_is_signer && a.signer == spec_unpack(a.escrow_data)->Ok_0.initializer),
    ensures
        spec_cancel(a) == Err::<OutcomeView, EscrowError>(EscrowError::AuthorityMismatch),
{
}

/// Law: a record that decodes as uninitialized — closed storage, or a slot
/// never written — admits no instruction but `InitEscrow`: `Confirm`,
/// `Exchange` and `Cancel` all fail `InvalidState`.
pub proof fn lemma_closed_record_rejects_all(program_id: Seq<u8>, a: AccountsView, amount: u64)
    requires
        spec_unpack(a.escrow_data) matches Ok(rec) && !rec.is_initialized,
    ensures
        spec_confirm(a) == Err::<OutcomeView, EscrowError>(EscrowError::InvalidState),
        spec_exchange(program_id, a, amount) == Err::<OutcomeView, EscrowError>(
            EscrowError::InvalidState,
        ),
        spec_cancel(a) == Err::<OutcomeView, EscrowError>(EscrowError::InvalidState),
{
}

} // verus!
