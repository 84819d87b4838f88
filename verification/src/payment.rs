//! Instructions that ask the ledger's system program to move currency.

use vstd::prelude::*;
use anchor_lang::prelude::Pubkey;
use anchor_lang::solana_program::system_instruction;
use crate::accounts::Address;

verus! {

/// One account that an instruction names, and how it is used.
#[derive(Clone, Copy, Debug, PartialEq, Eq)]
pub struct AccountRef {
    pub key: Address,
    pub is_signer: bool,
    pub is_writable: bool,
}

/// An instruction for the system program, in plain values.
#[derive(Clone, Debug, PartialEq, Eq)]
pub struct TransferInstruction {
    pub program_id: Address,
    pub accounts: Vec<AccountRef>,
    pub data: Vec<u8>,
}

/// The bytes in which the system program reads a transfer of `lamports`, as
/// `system_instruction::transfer` encodes them.
pub uninterp spec fn system_transfer_data(lamports: u64) -> Seq<u8>;

/// The identity of the system program: thirty-two zero bytes.
pub open spec fn system_program_id() -> Seq<u8> {
    Seq::new(32, |i: int| 0u8)
}

impl TransferInstruction {
    /// The instruction is the system program's transfer of `lamports` from
    /// `from`, who signs, to `to`; both accounts are written.
    pub open spec fn is_transfer(&self, from: Address, to: Address, lamports: u64) -> bool {
        &&& self.program_id.bytes@ == system_program_id()
        &&& self.accounts@ == seq![
            AccountRef { key: from, is_signer: true, is_writable: true },
            AccountRef { key: to, is_signer: false, is_writable: true },
        ]
        &&& self.data@ == system_transfer_data(lamports)
    }
}

/// Calls `system_instruction::transfer` of `solana_program`, as `anchor_lang`
/// hands it on, and copies the instruction it makes into plain values. The
/// contract claims what that function's source shows: the program is the
/// system program, the first account is the payer as a writable signer, the
/// second the receiver as writable and no signer, and the data depends on
/// the amount alone.
#[verifier::external_body]
pub(crate) fn system_transfer(from: &Address, to: &Address, lamports: u64) -> (ix:
    TransferInstruction)
    ensures
        ix.program_id.bytes@ == system_program_id(),
        ix.accounts@ == seq![
            AccountRef { key: *from, is_signer: true, is_writable: true },
            AccountRef { key: *to, is_signer: false, is_writable: true },
        ],
        ix.data@ == system_transfer_data(lamports),
{
    let payer = Pubkey::new_from_array(from.bytes);
    let receiver = Pubkey::new_from_array(to.bytes);
    let made = system_instruction::transfer(&payer, &receiver, lamports);
    let mut accounts: Vec<AccountRef> = Vec::new();
    for meta in made.accounts.iter() {
        let key = Address { bytes: meta.pubkey.to_bytes() };
        accounts.push(AccountRef { key, is_signer: meta.is_signer, is_writable: meta.is_writable });
    }
    TransferInstruction {
        program_id: Address { bytes: made.program_id.to_bytes() },
        accounts,
        data: made.data,
    }
}

} // verus!
