use vstd::prelude::*;

use anchor_lang::prelude::Pubkey;

use crate::account::{AccountRef, Identity, authorized, require_signer};
use crate::error::GifError;

verus! {

/// One account named by an instruction, with the access it asks for.
#[derive(Debug, Clone, Copy, PartialEq, Eq)]
pub struct InstructionAccount {
    pub key: Identity,
    pub is_signer: bool,
    pub is_writable: bool,
}

/// An instruction for the runtime's system program, ready to be invoked.
#[derive(Debug, Clone, PartialEq, Eq)]
pub struct TransferInstruction {
    pub program_id: Identity,
    pub accounts: Vec<InstructionAccount>,
    pub data: Vec<u8>,
}

/// The transient parameters of one value transfer.
#[derive(Debug, Clone, Copy, PartialEq, Eq)]
pub struct TransferIntent {
    pub from: Identity,
    pub to: Identity,
    pub amount: u64,
}

/// The accounts handed to [`send_sol`]: the signer that pays and the
/// recipient.
#[derive(Debug, Clone, Copy, PartialEq, Eq)]
pub struct SendSol {
    pub from: AccountRef,
    pub to: AccountRef,
}

/// The `k` low bytes of `n`, least significant first.
pub open spec fn le_bytes(n: nat, k: nat) -> Seq<u8>
    decreases k,
{
    if k == 0 {
        seq![]
    } else {
        seq![(n % 256) as u8] + le_bytes(n / 256, (k - 1) as nat)
    }
}

/// The system program's address: all 32 bytes zero.
pub open spec fn is_system_program(id: Identity) -> bool {
    id.bytes@ == Seq::new(32, |i: int| 0u8)
}

/// Instruction data of a system transfer: the variant tag 2 as four bytes,
/// then the amount as eight bytes, both little-endian.
pub open spec fn transfer_data(lamports: u64) -> Seq<u8> {
    le_bytes(2, 4) + le_bytes(lamports as nat, 8)
}

/// `ix` asks the system program to move `lamports` from `from`, which signs
/// and is written, to `to`, which is written.
pub open spec fn is_transfer_instruction(
    ix: TransferInstruction,
    from: Identity,
    to: Identity,
    lamports: u64,
) -> bool {
    &&& is_system_program(ix.program_id)
    &&& ix.accounts@ == seq![
        InstructionAccount { key: from, is_signer: true, is_writable: true },
        InstructionAccount { key: to, is_signer: false, is_writable: true },
    ]
    &&& ix.data@ == transfer_data(lamports)
}

/// Relies on anchor_lang::solana_program::system_instruction::transfer: the
/// system program as target, the metas `[from: signer, writable; to:
/// writable]`, and the bincode encoding of `SystemInstruction::Transfer`
/// (variant index 2 as `u32`, then the amount as `u64`, little-endian).
#[verifier::external_body]
fn system_transfer(from: &Identity, to: &Identity, lamports: u64) -> (r: TransferInstruction)
    ensures
        is_transfer_instruction(r, *from, *to, lamports),
{
    let ix = anchor_lang::solana_program::system_instruction::transfer(
        &Pubkey::new_from_array(from.bytes),
        &Pubkey::new_from_array(to.bytes),
        lamports,
    );
    let accounts = ix.accounts.iter().map(
        |m| InstructionAccount { key: Identity { bytes: m.pubkey.to_bytes() }, is_signer: m.is_signer, is_writable: m.is_writable },
    ).collect();
    TransferInstruction { program_id: Identity { bytes: ix.program_id.to_bytes() }, accounts, data: ix.data }
}

impl TransferIntent {
    /// The system instruction that carries out this transfer.
    pub fn instruction(&self) -> (r: TransferInstruction)
        ensures
            is_transfer_instruction(r, self.from, self.to, self.amount),
    {
        system_transfer(&self.from, &self.to, self.amount)
    }
}

/// Moves `amount` of native value from `ctx.from` to `ctx.to` in one step,
/// and hands back the system instruction that the runtime executes for it.
pub fn send_sol(ctx: &mut SendSol, amount: u64) -> (r: Result<TransferInstruction, GifError>)
    ensures
        !authorized(old(ctx).from) ==> r == Err::<TransferInstruction, GifError>(
            GifError::Unauthorized,
        ),
        authorized(old(ctx).from) && (!old(ctx).from.is_writable || !old(ctx).to.is_writable) ==> r
            == Err::<TransferInstruction, GifError>(GifError::TransferRejected),
        authorized(old(ctx).from) && old(ctx).from.is_writable && old(ctx).to.is_writable
            && old(ctx).from.lamports < amount ==> r == Err::<TransferInstruction, GifError>(
            GifError::InsufficientBalance,
        ),
        authorized(old(ctx).from) && old(ctx).from.is_writable && old(ctx).to.is_writable
            && old(ctx).from.lamports >= amount && old(ctx).to.lamports + amount > u64::MAX ==> r
            == Err::<TransferInstruction, GifError>(GifError::TransferRejected),
        authorized(old(ctx).from) && old(ctx).from.is_writable && old(ctx).to.is_writable
            && old(ctx).from.lamports >= amount && old(ctx).to.lamports + amount <= u64::MAX ==> r is Ok,
        r is Ok ==> {
            &&& final(ctx).from.lamports == old(ctx).from.lamports - amount
            &&& final(ctx).to.lamports == old(ctx).to.lamports + amount
            &&& is_transfer_instruction(r->Ok_0, old(ctx).from.key, old(ctx).to.key, amount)
        },
        r is Err ==> *final(ctx) == *old(ctx),
        final(ctx).from.key == old(ctx).from.key && final(ctx).from.is_signer == old(
            ctx,
        ).from.is_signer && final(ctx).from.is_writable == old(ctx).from.is_writable,
        final(ctx).to.key == old(ctx).to.key && final(ctx).to.is_signer == old(ctx).to.is_signer
            && final(ctx).to.is_writable == old(ctx).to.is_writable,
        (final(ctx).from.lamports == old(ctx).from.lamports - amount && final(ctx).to.lamports
            == old(ctx).to.lamports + amount) || (final(ctx).from.lamports == old(ctx).from.lamports
            && final(ctx).to.lamports == old(ctx).to.lamports),
{
    if let Err(e) = require_signer(&ctx.from) {
        return Err(e);
    }
    if !ctx.from.is_writable || !ctx.to.is_writable {
        return Err(GifError::TransferRejected);
    }
    if ctx.from.lamports < amount {
        return Err(GifError::InsufficientBalance);
    }
    let credited = match ctx.to.lamports.checked_add(amount) {
        Some(v) => v,
        None => {
            return Err(GifError::TransferRejected);
        },
    };
    let intent = TransferIntent { from: ctx.from.key, to: ctx.to.key, amount };
    let ix = intent.instruction();
    ctx.from.lamports = ctx.from.lamports - amount;
    ctx.to.lamports = credited;
    Ok(ix)
}

} // verus!
