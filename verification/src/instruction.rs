//! The instruction by which the native asset is moved.
//!
//! A transfer of the native asset is an instruction addressed to the host's
//! system program. It names the paying account, which must have signed, and
//! the receiving account, and carries the amount in its data.

use vstd::prelude::*;
use vstd::bytes::{
    lemma_auto_spec_u64_to_from_le_bytes, spec_u64_from_le_bytes, spec_u64_to_le_bytes,
    u64_from_le_bytes,
};
use vstd::slice::slice_subrange;
use crate::pubkey::Pubkey;

verus! {

/// The identity of the host's system program: the key of 32 zero bytes.
pub const SYSTEM_PROGRAM_ID: [u8; 32] = [
    0, 0, 0, 0, 0, 0, 0, 0, 0, 0, 0, 0, 0, 0, 0, 0,
    0, 0, 0, 0, 0, 0, 0, 0, 0, 0, 0, 0, 0, 0, 0, 0,
];

/// The first four bytes of the data of a transfer: the number 2, little-endian.
pub const TRANSFER_TAG: [u8; 4] = [2, 0, 0, 0];

/// Bytes in the data of a transfer: the tag and the amount.
pub const TRANSFER_DATA_LENGTH: usize = 12;

/// An account named by an instruction, with the permissions asked for it.
#[derive(Clone, Copy, Debug, PartialEq, Eq)]
pub struct AccountMeta {
    pub pubkey: Pubkey,
    pub is_signer: bool,
    pub is_writable: bool,
}

/// An instruction for a program of the host.
#[derive(Clone, Debug, PartialEq, Eq)]
pub struct Instruction {
    pub program_id: Pubkey,
    pub accounts: Vec<AccountMeta>,
    pub data: Vec<u8>,
}

/// A transfer read from an instruction.
#[derive(Clone, Copy, Debug, PartialEq, Eq)]
pub struct NativeTransfer {
    pub from: AccountMeta,
    pub to: AccountMeta,
    pub lamports: u64,
}

/// The data of a transfer of `lamports` units: the tag, then the amount in
/// eight bytes, little-endian.
pub open spec fn transfer_data(lamports: u64) -> Seq<u8> {
    TRANSFER_TAG@ + spec_u64_to_le_bytes(lamports)
}

/// The accounts of a transfer: the payer, who signs, then the receiver; both
/// are written to.
pub open spec fn transfer_accounts(from: Pubkey, to: Pubkey) -> Seq<AccountMeta> {
    seq![
        AccountMeta { pubkey: from, is_signer: true, is_writable: true },
        AccountMeta { pubkey: to, is_signer: false, is_writable: true },
    ]
}

/// Whether `ix` is the instruction that moves `lamports` units from `from` to `to`.
pub open spec fn is_transfer_of(ix: Instruction, from: Pubkey, to: Pubkey, lamports: u64) -> bool {
    &&& ix.program_id@ == SYSTEM_PROGRAM_ID@
    &&& ix.accounts@ == transfer_accounts(from, to)
    &&& ix.data@ == transfer_data(lamports)
}

/// Calls `system_instruction::transfer` of `anchor_lang::solana_program` and
/// copies the instruction it returns field by field. Nothing is proved of it.
/// The contract claims what that function's source shows: the instruction is
/// addressed to the system program, names `from` as a writable signer and
/// `to` as writable, and its data is the variant index 2 in four bytes
/// followed by `lamports` in eight, both little-endian.
#[verifier::external_body]
fn system_transfer(from: &Pubkey, to: &Pubkey, lamports: u64) -> (ix: Instruction)
    ensures
        is_transfer_of(ix, *from, *to, lamports),
{
    let payer = anchor_lang::prelude::Pubkey::new_from_array(from.bytes);
    let receiver = anchor_lang::prelude::Pubkey::new_from_array(to.bytes);
    let made = anchor_lang::solana_program::system_instruction::transfer(&payer, &receiver, lamports);
    Instruction {
        program_id: Pubkey { bytes: made.program_id.to_bytes() },
        accounts: made.accounts.iter().map(|meta| AccountMeta {
            pubkey: Pubkey { bytes: meta.pubkey.to_bytes() },
            is_signer: meta.is_signer,
            is_writable: meta.is_writable,
        }).collect(),
        data: made.data,
    }
}

/// Builds the instruction that moves `lamports` units from `from` to `to`.
pub fn transfer(from: &Pubkey, to: &Pubkey, lamports: u64) -> (ix: Instruction)
    ensures
        is_transfer_of(ix, *from, *to, lamports),
        read_transfer(ix) == Some(
            NativeTransfer {
                from: AccountMeta { pubkey: *from, is_signer: true, is_writable: true },
                to: AccountMeta { pubkey: *to, is_signer: false, is_writable: true },
                lamports,
            },
        ),
{
    let ix = system_transfer(from, to, lamports);
    proof {
        lemma_transfer_is_read(ix, *from, *to, lamports);
    }
    ix
}

/// What the system program reads from `ix`: a transfer, where `ix` is
/// addressed to it, names two accounts and carries the tag and eight bytes.
pub open spec fn read_transfer(ix: Instruction) -> Option<NativeTransfer> {
    if ix.program_id@ == SYSTEM_PROGRAM_ID@ && ix.accounts@.len() == 2 && ix.data@.len()
        == TRANSFER_DATA_LENGTH && ix.data@.subrange(0, 4) == TRANSFER_TAG@ {
        Some(
            NativeTransfer {
                from: ix.accounts@[0],
                to: ix.accounts@[1],
                lamports: spec_u64_from_le_bytes(ix.data@.subrange(4, 12)),
            },
        )
    } else {
        None
    }
}

/// Reads a transfer from `ix`, or `None` where `ix` is none.
pub fn decode_transfer(ix: &Instruction) -> (read: Option<NativeTransfer>)
    ensures
        read == read_transfer(*ix),
{
    let system = Pubkey::new(SYSTEM_PROGRAM_ID);
    if !ix.program_id.equals(&system) || ix.accounts.len() != 2 || ix.data.len()
        != TRANSFER_DATA_LENGTH {
        return None;
    }
    let mut i: usize = 0;
    while i < 4
        invariant
            i <= 4,
            ix.data@.len() == TRANSFER_DATA_LENGTH,
            forall|j: int| 0 <= j < i ==> ix.data@[j] == TRANSFER_TAG@[j],
        decreases 4 - i,
    {
        if ix.data[i] != TRANSFER_TAG[i] {
            assert(ix.data@.subrange(0, 4)[i as int] == ix.data@[i as int]);
            return None;
        }
        i += 1;
    }
    assert(ix.data@.subrange(0, 4) =~= TRANSFER_TAG@);
    let lamports = u64_from_le_bytes(slice_subrange(ix.data.as_slice(), 4, 12));
    Some(NativeTransfer { from: ix.accounts[0], to: ix.accounts[1], lamports })
}

/// The transfer built for an amount is read back with that amount.
pub proof fn lemma_transfer_is_read(ix: Instruction, from: Pubkey, to: Pubkey, lamports: u64)
    requires
        is_transfer_of(ix, from, to, lamports),
    ensures
        read_transfer(ix) == Some(
            NativeTransfer {
                from: AccountMeta { pubkey: from, is_signer: true, is_writable: true },
                to: AccountMeta { pubkey: to, is_signer: false, is_writable: true },
                lamports,
            },
        ),
{
    lemma_auto_spec_u64_to_from_le_bytes();
    let amount = spec_u64_to_le_bytes(lamports);
    assert(amount.len() == 8);
    assert(ix.data@.subrange(0, 4) =~= TRANSFER_TAG@);
    assert(ix.data@.subrange(4, 12) =~= amount);
}

} // verus!
