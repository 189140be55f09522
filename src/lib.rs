//! An on-ledger board of submitted links: one fixed-capacity account holding
//! an append-only list of records and their count, plus a native value
//! transfer between two accounts.

pub mod account;
pub mod error;
pub mod ledger;
pub mod transfer;

pub use account::{AccountRef, Identity, require_signer};
pub use error::GifError;
pub use ledger::{AddGif, BaseAccount, ItemStruct, LedgerSlot, StartStuffOff, add_gif, start_stuff_off};
pub use transfer::{InstructionAccount, SendSol, TransferInstruction, TransferIntent, send_sol};
