//! The escrow record and its fixed-width binary codec.
//!
//! Layout, offsets in bytes: `is_initialized` (1) + `initializer` (32) +
//! `counterparty` (32) + `asset_mint` (32) + `custody_account` (32) +
//! `expected_amount` (8, little-endian) + `confirmed` (1); 138 bytes in all.
//! A buffer of any other length, or one whose flag bytes are not 0 or 1,
//! is not a record and fails to decode.

use vstd::prelude::*;
use vstd::bytes::lemma_auto_spec_u64_to_from_le_bytes;
use vstd::bytes::spec_u64_from_le_bytes;
use vstd::bytes::spec_u64_to_le_bytes;
use vstd::bytes::u64_from_le_bytes;
use vstd::bytes::u64_to_le_bytes;
use vstd::slice::slice_subrange;
use crate::error::EscrowError;
use crate::identity::Identity;

verus! {

/// The exact encoded size of an escrow record, in bytes.
pub const ESCROW_LEN: usize = 138;

/// One open trade: its parties, the asset under custody, and the exact
/// counter-value required to release it.
#[derive(Clone, Copy, Debug, PartialEq, Eq)]
pub struct Escrow {
    /// Guards against double-initialization and against acting on an empty
    /// or closed slot.
    pub is_initialized: bool,
    /// The party who locked the asset.
    pub initializer: Identity,
    /// The party expected to complete the trade, fixed at initialization.
    pub counterparty: Identity,
    /// The fungible-asset type under custody.
    pub asset_mint: Identity,
    /// The account holding the locked asset, owned by the program's derived
    /// authority while the escrow is open.
    pub custody_account: Identity,
    /// The exact counter-value required to release the asset; positive for
    /// every record the processor creates, and never changed afterwards.
    pub expected_amount: u64,
    /// Whether the counterparty has confirmed the open trade.
    pub confirmed: bool,
}

/// The mathematical view of an escrow record: each identity as its byte
/// sequence.
#[verifier::ext_equal]
pub ghost struct EscrowView {
    pub is_initialized: bool,
    pub initializer: Seq<u8>,
    pub counterparty: Seq<u8>,
    pub asset_mint: Seq<u8>,
    pub custody_account: Seq<u8>,
    pub expected_amount: u64,
    pub confirmed: bool,
}

impl EscrowView {
    /// Well-formedness: every identity is exactly 32 bytes. The view of any
    /// executable record is well formed by construction.
    pub open spec fn wf(self) -> bool {
        &&& self.initializer.len() == 32
        &&& self.counterparty.len() == 32
        &&& self.asset_mint.len() == 32
        &&& self.custody_account.len() == 32
    }
}

impl View for Escrow {
    type V = EscrowView;

    open spec fn view(&self) -> EscrowView {
        EscrowView {
            is_initialized: self.is_initialized,
            initializer: self.initializer@,
            counterparty: self.counterparty@,
            asset_mint: self.asset_mint@,
            custody_account: self.custody_account@,
            expected_amount: self.expected_amount,
            confirmed: self.confirmed,
        }
    }
}

/// The encoded byte of a lifecycle flag.
pub open spec fn spec_flag_byte(b: bool) -> u8 {
    if b {
        1u8
    } else {
        0u8
    }
}

/// The encoding of a record: the bytes [`Escrow::pack`] must return.
pub open spec fn spec_pack(e: EscrowView) -> Seq<u8> {
    seq![spec_flag_byte(e.is_initialized)] + e.initializer + e.counterparty + e.asset_mint
        + e.custody_account + spec_u64_to_le_bytes(e.expected_amount) + seq![
        spec_flag_byte(e.confirmed),
    ]
}

/// What a byte buffer decodes to: the value [`Escrow::unpack`] must return.
/// A malformed buffer is reported as `InvalidState`, so a caller never
/// mistakes absent or corrupt storage for an initialized record.
pub open spec fn spec_unpack(data: Seq<u8>) -> Result<EscrowView, EscrowError> {
    if data.len() != 138 {
        Err(EscrowError::InvalidState)
    } else if data[0] != 0 && data[0] != 1 {
        Err(EscrowError::InvalidState)
    } else if data[137] != 0 && data[137] != 1 {
        Err(EscrowError::InvalidState)
    } else {
        Ok(
            EscrowView {
                is_initialized: data[0] == 1,
                initializer: data.subrange(1, 33),
                counterparty: data.subrange(33, 65),
                asset_mint: data.subrange(65, 97),
                custody_account: data.subrange(97, 129),
                expected_amount: spec_u64_from_le_bytes(data.subrange(129, 137)),
                confirmed: data[137] == 1,
            },
        )
    }
}

/// Lifts a decode result to the view level, for stating [`Escrow::unpack`]'s
/// contract.
pub open spec fn spec_unpack_result_view(r: Result<Escrow, EscrowError>) -> Result<
    EscrowView,
    EscrowError,
> {
    match r {
        Ok(e) => Ok(e@),
        Err(err) => Err(err),
    }
}

impl Escrow {
    /// Whether this record has been initialized: the lifecycle gate every
    /// instruction consults.
    pub fn is_initialized(&self) -> (r: bool)
        ensures
            r == self.is_initialized,
    {
        self.is_initialized
    }

    /// Decodes a record from its fixed-width encoding, or fails with
    /// `InvalidState` on a buffer of the wrong length or with a malformed
    /// lifecycle flag.
    pub fn unpack(src: &[u8]) -> (r: Result<Escrow, EscrowError>)
        ensures
            spec_unpack_result_view(r) == spec_unpack(src@),
    {
        if src.len() != ESCROW_LEN {
            return Err(EscrowError::InvalidState);
        }
        let init_flag: u8 = src[0];
        if init_flag != 0 && init_flag != 1 {
            return Err(EscrowError::InvalidState);
        }
        let confirmed_flag: u8 = src[137];
        if confirmed_flag != 0 && confirmed_flag != 1 {
            return Err(EscrowError::InvalidState);
        }
        let initializer = Identity::read_from(src, 1);
        let counterparty = Identity::read_from(src, 33);
        let asset_mint = Identity::read_from(src, 65);
        let custody_account = Identity::read_from(src, 97);
        let expected_amount: u64 = u64_from_le_bytes(slice_subrange(src, 129, 137));
        let e = Escrow {
            is_initialized: init_flag == 1,
            initializer,
            counterparty,
            asset_mint,
            custody_account,
            expected_amount,
            confirmed: confirmed_flag == 1,
        };
        proof {
            assert(e@ =~= spec_unpack(src@)->Ok_0);
        }
        Ok(e)
    }

    /// Encodes this record into its fixed-width byte layout.
    pub fn pack(&self) -> (r: Vec<u8>)
        ensures
            r@ == spec_pack(self@),
            r@.len() == 138,
    {
        let mut out: Vec<u8> = Vec::new();
        out.push(if self.is_initialized {
            1u8
        } else {
            0u8
        });
        self.initializer.append_to(&mut out);
        self.counterparty.append_to(&mut out);
        self.asset_mint.append_to(&mut out);
        self.custody_account.append_to(&mut out);
        let mut amount_bytes: Vec<u8> = u64_to_le_bytes(self.expected_amount);
        out.append(&mut amount_bytes);
        out.push(if self.confirmed {
            1u8
        } else {
            0u8
        });
        proof {
            lemma_auto_spec_u64_to_from_le_bytes();
            assert(out@ =~= spec_pack(self@));
        }
        out
    }
}

/// Law (one direction of the round trip): every well-formed record decodes
/// back from its own encoding.
pub proof fn lemma_unpack_of_pack(e: EscrowView)
    requires
        e.wf(),
    ensures
        spec_unpack(spec_pack(e)) == Ok::<EscrowView, EscrowError>(e),
{
    lemma_auto_spec_u64_to_from_le_bytes();
    let data = spec_pack(e);
    assert(data.len() == 138);
    assert(data[0] == spec_flag_byte(e.is_initialized));
    assert(data[137] == spec_flag_byte(e.confirmed));
    assert(data.subrange(1, 33) =~= e.initializer);
    assert(data.subrange(33, 65) =~= e.counterparty);
    assert(data.subrange(65, 97) =~= e.asset_mint);
    assert(data.subrange(97, 129) =~= e.custody_account);
    assert(data.subrange(129, 137) =~= spec_u64_to_le_bytes(e.expected_amount));
    assert(spec_unpack(data)->Ok_0 =~= e);
}

/// Law (the other direction of the round trip): every 138-byte buffer whose
/// two lifecycle-flag bytes are 0 or 1 decodes, and re-encoding the decoded
/// record reproduces the buffer byte for byte. (A buffer with any other flag
/// byte decodes to no record at all, so nothing is re-encoded for it.)
pub proof fn lemma_pack_of_unpack(data: Seq<u8>)
    requires
        data.len() == 138,
        data[0] == 0 || data[0] == 1,
        data[137] == 0 || data[137] == 1,
    ensures
        spec_unpack(data) is Ok,
        spec_pack(spec_unpack(data)->Ok_0) == data,
{
    lemma_auto_spec_u64_to_from_le_bytes();
    let e = spec_unpack(data)->Ok_0;
    assert(spec_u64_to_le_bytes(e.expected_amount) =~= data.subrange(129, 137));
    assert(spec_pack(e) =~= data);
}

} // verus!
