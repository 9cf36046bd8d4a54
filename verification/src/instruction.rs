//! The instruction codec: decoding an opaque byte buffer into one of the
//! closed set of escrow instructions.
//!
//! Wire format: one tag byte, followed for `InitEscrow` and `Exchange` by an
//! 8-byte little-endian amount. Decoding is total and deterministic: an
//! unknown tag or a truncated or oversized payload fails with
//! `InvalidInstruction`, and no partial instruction is ever returned.

use vstd::prelude::*;
use vstd::bytes::lemma_auto_spec_u64_to_from_le_bytes;
use vstd::bytes::spec_u64_from_le_bytes;
use vstd::bytes::spec_u64_to_le_bytes;
use vstd::bytes::u64_from_le_bytes;
use vstd::bytes::u64_to_le_bytes;
use vstd::slice::slice_subrange;
use crate::error::EscrowError;

verus! {

/// The closed set of instructions the processor accepts.
#[derive(Clone, Copy, Debug, PartialEq, Eq)]
pub enum EscrowInstruction {
    /// Tag 0. Starts the trade: writes the full escrow record, naming the
    /// counterparty and the exact counter-value `amount` the initializer
    /// expects in return for the locked asset.
    InitEscrow { amount: u64 },
    /// Tag 1. Optional intermediate step: the counterparty confirms the open
    /// trade before settlement.
    Confirm,
    /// Tag 2. Settles the trade: the counterparty supplies exactly `amount`
    /// (checked against the record's expected amount) and atomically receives
    /// the locked asset; the record is destroyed.
    Exchange { amount: u64 },
    /// Tag 3. Aborts the trade: the initializer reclaims the locked asset and
    /// the record is destroyed.
    Cancel,
}

/// What a byte buffer decodes to: the value [`EscrowInstruction::unpack`]
/// must return.
pub open spec fn spec_instruction_unpack(data: Seq<u8>) -> Result<
    EscrowInstruction,
    EscrowError,
> {
    if data.len() == 0 {
        Err(EscrowError::InvalidInstruction)
    } else if data[0] == 0 && data.len() == 9 {
        Ok(EscrowInstruction::InitEscrow { amount: spec_u64_from_le_bytes(data.subrange(1, 9)) })
    } else if data[0] == 1 && data.len() == 1 {
        Ok(EscrowInstruction::Confirm)
    } else if data[0] == 2 && data.len() == 9 {
        Ok(EscrowInstruction::Exchange { amount: spec_u64_from_le_bytes(data.subrange(1, 9)) })
    } else if data[0] == 3 && data.len() == 1 {
        Ok(EscrowInstruction::Cancel)
    } else {
        Err(EscrowError::InvalidInstruction)
    }
}

/// The byte encoding of an instruction: the value
/// [`EscrowInstruction::pack`] must return.
pub open spec fn spec_instruction_pack(i: EscrowInstruction) -> Seq<u8> {
    match i {
        EscrowInstruction::InitEscrow { amount } => seq![0u8] + spec_u64_to_le_bytes(amount),
        EscrowInstruction::Confirm => seq![1u8],
        EscrowInstruction::Exchange { amount } => seq![2u8] + spec_u64_to_le_bytes(amount),
        EscrowInstruction::Cancel => seq![3u8],
    }
}

impl EscrowInstruction {
    /// Decodes a byte buffer into an instruction, or fails with
    /// `InvalidInstruction` on an unknown tag or a payload whose length does
    /// not match the tag.
    pub fn unpack(input: &[u8]) -> (r: Result<EscrowInstruction, EscrowError>)
        ensures
            r == spec_instruction_unpack(input@),
    {
        if input.len() == 0 {
            return Err(EscrowError::InvalidInstruction);
        }
        let tag: u8 = input[0];
        if tag == 0 && input.len() == 9 {
            let amount: u64 = u64_from_le_bytes(slice_subrange(input, 1, 9));
            Ok(EscrowInstruction::InitEscrow { amount })
        } else if tag == 1 && input.len() == 1 {
            Ok(EscrowInstruction::Confirm)
        } else if tag == 2 && input.len() == 9 {
            let amount: u64 = u64_from_le_bytes(slice_subrange(input, 1, 9));
            Ok(EscrowInstruction::Exchange { amount })
        } else if tag == 3 && input.len() == 1 {
            Ok(EscrowInstruction::Cancel)
        } else {
            Err(EscrowError::InvalidInstruction)
        }
    }

    /// Encodes this instruction as its wire bytes.
    pub fn pack(&self) -> (r: Vec<u8>)
        ensures
            r@ == spec_instruction_pack(*self),
    {
        let mut out: Vec<u8> = Vec::new();
        match self {
            EscrowInstruction::InitEscrow { amount } => {
                out.push(0u8);
                let mut payload: Vec<u8> = u64_to_le_bytes(*amount);
                out.append(&mut payload);
            },
            EscrowInstruction::Confirm => {
                out.push(1u8);
            },
            EscrowInstruction::Exchange { amount } => {
                out.push(2u8);
                let mut payload: Vec<u8> = u64_to_le_bytes(*amount);
                out.append(&mut payload);
            },
            EscrowInstruction::Cancel => {
                out.push(3u8);
            },
        }
        proof {
            assert(out@ =~= spec_instruction_pack(*self));
        }
        out
    }
}

/// Law: the instruction codec round-trips. Every instruction decodes back
/// from its own encoding.
pub proof fn lemma_instruction_round_trip(i: EscrowInstruction)
    ensures
        spec_instruction_unpack(spec_instruction_pack(i)) == Ok::<EscrowInstruction, EscrowError>(i),
{
    lemma_auto_spec_u64_to_from_le_bytes();
    let data = spec_instruction_pack(i);
    match i {
        EscrowInstruction::InitEscrow { amount } => {
            assert(data.subrange(1, 9) =~= spec_u64_to_le_bytes(amount));
        },
        EscrowInstruction::Confirm => {
        },
        EscrowInstruction::Exchange { amount } => {
            assert(data.subrange(1, 9) =~= spec_u64_to_le_bytes(amount));
        },
        EscrowInstruction::Cancel => {
        },
    }
}

/// Law: decoding is unambiguous. Every buffer that decodes at all is exactly
/// the encoding of the instruction it decodes to.
pub proof fn lemma_instruction_unpack_exact(data: Seq<u8>)
    requires
        spec_instruction_unpack(data) is Ok,
    ensures
        spec_instruction_pack(spec_instruction_unpack(data)->Ok_0) == data,
{
    lemma_auto_spec_u64_to_from_le_bytes();
    let i = spec_instruction_unpack(data)->Ok_0;
    match i {
        EscrowInstruction::InitEscrow { amount } => {
            assert(spec_u64_to_le_bytes(amount) =~= data.subrange(1, 9));
            assert(spec_instruction_pack(i) =~= data);
        },
        EscrowInstruction::Confirm => {
            assert(spec_instruction_pack(i) =~= data);
        },
        EscrowInstruction::Exchange { amount } => {
            assert(spec_u64_to_le_bytes(amount) =~= data.subrange(1, 9));
            assert(spec_instruction_pack(i) =~= data);
        },
        EscrowInstruction::Cancel => {
            assert(spec_instruction_pack(i) =~= data);
        },
    }
}

} // verus!
