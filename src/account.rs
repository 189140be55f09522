use vstd::prelude::*;

use crate::error::GifError;

verus! {

/// Width in bytes of an identity.
pub const IDENTITY_LEN: usize = 32;

/// An opaque public identifier of a signer or of an account.
#[derive(Debug, Clone, Copy, PartialEq, Eq)]
pub struct Identity {
    pub bytes: [u8; 32],
}

/// What a call sees of one account it was handed: its address, whether the
/// call carries a verified signature for that address, whether the call may
/// change it, and its native balance.
#[derive(Debug, Clone, Copy, PartialEq, Eq)]
pub struct AccountRef {
    pub key: Identity,
    pub is_signer: bool,
    pub is_writable: bool,
    pub lamports: u64,
}

/// The authorization check: the call carries a verified signature bound to
/// the account's own identity.
pub open spec fn authorized(a: AccountRef) -> bool {
    a.is_signer
}

/// Succeeds exactly when `a` passed the authorization check.
pub fn require_signer(a: &AccountRef) -> (r: Result<(), GifError>)
    ensures
        r is Ok <==> authorized(*a),
        r is Err ==> r == Err::<(), GifError>(GifError::Unauthorized),
{
    if a.is_signer {
        Ok(())
    } else {
        Err(GifError::Unauthorized)
    }
}

} // verus!
