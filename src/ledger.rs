use vstd::prelude::*;
use vstd::utf8::encode_utf8;

use crate::account::{AccountRef, Identity, authorized, require_signer, IDENTITY_LEN};
use crate::error::GifError;

verus! {

/// Bytes reserved for one ledger account when it is created.
pub const ACCOUNT_SPACE: usize = 9000;

/// Bytes of the type tag that precedes an account's fields.
pub const DISCRIMINATOR_LEN: usize = 8;

/// Bytes of the serialized record count.
pub const COUNT_LEN: usize = 8;

/// Bytes of the length prefix of a serialized list or string.
pub const LENGTH_PREFIX_LEN: usize = 4;

/// Serialized size of an account that holds no record.
pub const EMPTY_ACCOUNT_LEN: usize = DISCRIMINATOR_LEN + COUNT_LEN + LENGTH_PREFIX_LEN;

/// Serialized size of a record besides the bytes of its link.
pub const RECORD_OVERHEAD: usize = LENGTH_PREFIX_LEN + IDENTITY_LEN;

/// One submitted record: a link and the identity that submitted it.
#[derive(Debug, Clone, PartialEq, Eq)]
pub struct ItemStruct {
    pub gif_link: String,
    pub user_address: Identity,
}

/// The mathematical value of a record.
pub struct ItemView {
    pub gif_link: Seq<char>,
    pub user_address: Identity,
}

impl View for ItemStruct {
    type V = ItemView;

    open spec fn view(&self) -> ItemView {
        ItemView { gif_link: self.gif_link@, user_address: self.user_address }
    }
}

/// Number of bytes of the UTF-8 encoding of `s`.
pub open spec fn byte_len(s: Seq<char>) -> nat {
    encode_utf8(s).len()
}

/// Serialized size of one record: the identity, then the length-prefixed link.
pub open spec fn record_size(r: ItemView) -> nat {
    (RECORD_OVERHEAD as nat) + byte_len(r.gif_link)
}

/// Serialized size of a list of records, without the list's length prefix.
pub open spec fn records_size(s: Seq<ItemView>) -> nat
    decreases s.len(),
{
    if s.len() == 0 {
        0
    } else {
        records_size(s.drop_last()) + record_size(s.last())
    }
}

/// The mathematical value of a ledger account.
pub struct LedgerView {
    pub total_gifs: nat,
    pub gif_list: Seq<ItemView>,
}

impl LedgerView {
    /// Bytes the account takes once serialized.
    pub open spec fn serialized_size(self) -> nat {
        (EMPTY_ACCOUNT_LEN as nat) + records_size(self.gif_list)
    }

    /// The count matches the list, and the account fits its reserved space.
    pub open spec fn wf(self) -> bool {
        &&& self.total_gifs == self.gif_list.len()
        &&& self.serialized_size() <= ACCOUNT_SPACE
    }

    /// Whether the account still fits its reserved space once `r` is added.
    pub open spec fn fits(self, r: ItemView) -> bool {
        self.serialized_size() + record_size(r) <= ACCOUNT_SPACE
    }

    /// The account after `r` was appended.
    pub open spec fn appended(self, r: ItemView) -> LedgerView {
        LedgerView { total_gifs: self.total_gifs + 1, gif_list: self.gif_list.push(r) }
    }
}

/// A freshly initialized account.
pub open spec fn empty_ledger() -> LedgerView {
    LedgerView { total_gifs: 0, gif_list: Seq::empty() }
}

/// The records submitted so far, in submission order, and their count.
pub struct BaseAccount {
    pub total_gifs: u64,
    pub gif_list: Vec<ItemStruct>,
}

impl View for BaseAccount {
    type V = LedgerView;

    open spec fn view(&self) -> LedgerView {
        LedgerView {
            total_gifs: self.total_gifs as nat,
            gif_list: self.gif_list@.map_values(|i: ItemStruct| i@),
        }
    }
}

proof fn lemma_records_size_prefix(s: Seq<ItemView>, k: int)
    requires
        0 <= k <= s.len(),
    ensures
        records_size(s.take(k)) <= records_size(s),
    decreases s.len(),
{
    if k == s.len() {
        assert(s.take(k) =~= s);
    } else {
        assert(s.drop_last().take(k) =~= s.take(k));
        lemma_records_size_prefix(s.drop_last(), k);
    }
}

proof fn lemma_records_size_lower(s: Seq<ItemView>)
    ensures
        records_size(s) >= (RECORD_OVERHEAD as nat) * s.len(),
    decreases s.len(),
{
    if s.len() > 0 {
        lemma_records_size_lower(s.drop_last());
        let k = RECORD_OVERHEAD as nat;
        let m = s.len() as int;
        assert(k * m == k * (m - 1) + k) by (nonlinear_arith);
    }
}

impl BaseAccount {
    pub open spec fn wf(&self) -> bool {
        self@.wf()
    }

    /// An account with no record.
    pub fn new() -> (r: BaseAccount)
        ensures
            r@ == empty_ledger(),
            r.wf(),
    {
        let r = BaseAccount { total_gifs: 0, gif_list: Vec::new() };
        assert(r@.gif_list =~= Seq::<ItemView>::empty());
        r
    }

    /// Bytes the account takes once serialized.
    pub fn serialized_len(&self) -> (n: usize)
        requires
            self.wf(),
        ensures
            n == self@.serialized_size(),
    {
        let ghost s = self@.gif_list;
        let mut total: usize = EMPTY_ACCOUNT_LEN;
        let mut i: usize = 0;
        assert(s.take(0) =~= Seq::<ItemView>::empty());
        while i < self.gif_list.len()
            invariant
                self.wf(),
                s == self@.gif_list,
                s.len() == self.gif_list@.len(),
                0 <= i <= s.len(),
                total == (EMPTY_ACCOUNT_LEN as nat) + records_size(s.take(i as int)),
            decreases self.gif_list.len() - i,
        {
            proof {
                lemma_records_size_prefix(s, i + 1);
                assert(s.take(i + 1).drop_last() =~= s.take(i as int));
                assert(s.take(i + 1).last() == s[i as int]);
            }
            let n = self.gif_list[i].gif_link.as_str().as_bytes().len();
            total = total + RECORD_OVERHEAD + n;
            i = i + 1;
        }
        assert(s.take(i as int) =~= s);
        total
    }

    /// Number of records held.
    pub fn record_count(&self) -> (r: u64)
        ensures
            r == self.total_gifs,
    {
        self.total_gifs
    }

    /// The records held, in submission order.
    pub fn records(&self) -> (r: &Vec<ItemStruct>)
        ensures
            r == &self.gif_list,
    {
        &self.gif_list
    }
}

/// The account `v` after appending each record of `rs` in turn.
pub open spec fn appended_all(v: LedgerView, rs: Seq<ItemView>) -> LedgerView
    decreases rs.len(),
{
    if rs.len() == 0 {
        v
    } else {
        appended_all(v, rs.drop_last()).appended(rs.last())
    }
}

/// Starting from a freshly initialized account, any sequence of successful
/// appends leaves a record count equal to the number of appends, and the
/// records exactly as submitted, in call order.
pub proof fn lemma_appends_kept_in_order(rs: Seq<ItemView>)
    ensures
        appended_all(empty_ledger(), rs) == (LedgerView { total_gifs: rs.len(), gif_list: rs }),
    decreases rs.len(),
{
    if rs.len() == 0 {
        assert(rs =~= Seq::<ItemView>::empty());
    } else {
        lemma_appends_kept_in_order(rs.drop_last());
        assert(rs.drop_last().push(rs.last()) =~= rs);
    }
}

/// A storage address that may or may not hold an initialized account yet,
/// with the native balance kept at that address.
pub struct LedgerSlot {
    pub key: Identity,
    pub lamports: u64,
    pub state: Option<BaseAccount>,
}

/// The accounts handed to [`start_stuff_off`]: the slot to initialize and
/// the payer that funds it.
pub struct StartStuffOff {
    pub base_account: LedgerSlot,
    pub user: AccountRef,
}

/// The accounts handed to [`add_gif`]: the ledger account and the signer
/// that submits the record.
pub struct AddGif {
    pub base_account: BaseAccount,
    pub user: AccountRef,
}

/// Creates the ledger account in `ctx.base_account`, with no record, the
/// payer moving `rent_lamports` (the balance that the reserved space costs)
/// to the slot.
pub fn start_stuff_off(ctx: &mut StartStuffOff, rent_lamports: u64) -> (r: Result<(), GifError>)
    ensures
        old(ctx).base_account.state is Some ==> r == Err::<(), GifError>(
            GifError::AlreadyInitialized,
        ),
        old(ctx).base_account.state is None && !authorized(old(ctx).user) ==> r == Err::<
            (),
            GifError,
        >(GifError::Unauthorized),
        old(ctx).base_account.state is None && authorized(old(ctx).user) && (old(ctx).user.lamports
            < rent_lamports || old(ctx).base_account.lamports + rent_lamports > u64::MAX) ==> r
            == Err::<(), GifError>(GifError::AllocationFailed),
        old(ctx).base_account.state is None && authorized(old(ctx).user) && old(ctx).user.lamports
            >= rent_lamports && old(ctx).base_account.lamports + rent_lamports <= u64::MAX ==> r is Ok,
        r is Ok ==> {
            &&& final(ctx).base_account.state is Some
            &&& final(ctx).base_account.state->0@ == empty_ledger()
            &&& final(ctx).base_account.state->0.wf()
            &&& final(ctx).base_account.key == old(ctx).base_account.key
            &&& final(ctx).base_account.lamports == old(ctx).base_account.lamports + rent_lamports
            &&& final(ctx).user.lamports == old(ctx).user.lamports - rent_lamports
            &&& final(ctx).user.key == old(ctx).user.key
            &&& final(ctx).user.is_signer == old(ctx).user.is_signer
            &&& final(ctx).user.is_writable == old(ctx).user.is_writable
        },
        r is Err ==> *final(ctx) == *old(ctx),
{
    if ctx.base_account.state.is_some() {
        return Err(GifError::AlreadyInitialized);
    }
    if let Err(e) = require_signer(&ctx.user) {
        return Err(e);
    }
    if ctx.user.lamports < rent_lamports {
        return Err(GifError::AllocationFailed);
    }
    let funded = match ctx.base_account.lamports.checked_add(rent_lamports) {
        Some(v) => v,
        None => {
            return Err(GifError::AllocationFailed);
        },
    };
    ctx.user.lamports = ctx.user.lamports - rent_lamports;
    ctx.base_account.lamports = funded;
    ctx.base_account.state = Some(BaseAccount::new());
    Ok(())
}

/// Appends the record (`gif_link`, the signer's identity) to the account,
/// when the signer signed and the account can hold it. The signature is
/// checked first: an unsigned call is refused as unauthorized whatever it
/// submits.
pub fn add_gif(ctx: &mut AddGif, gif_link: String) -> (r: Result<(), GifError>)
    requires
        old(ctx).base_account.wf(),
    ensures
        final(ctx).base_account.wf(),
        !authorized(old(ctx).user) ==> r == Err::<(), GifError>(GifError::Unauthorized),
        authorized(old(ctx).user) && !old(ctx).base_account@.fits(
            ItemView { gif_link: gif_link@, user_address: old(ctx).user.key },
        ) ==> r == Err::<(), GifError>(GifError::CapacityExceeded),
        authorized(old(ctx).user) && old(ctx).base_account@.fits(
            ItemView { gif_link: gif_link@, user_address: old(ctx).user.key },
        ) ==> r is Ok,
        r is Ok ==> final(ctx).base_account@ == old(ctx).base_account@.appended(
            ItemView { gif_link: gif_link@, user_address: old(ctx).user.key },
        ),
        final(ctx).user == old(ctx).user,
        r is Err ==> *final(ctx) == *old(ctx),
{
    if let Err(e) = require_signer(&ctx.user) {
        return Err(e);
    }
    let used = ctx.base_account.serialized_len();
    let n = gif_link.as_str().as_bytes().len();
    if used + RECORD_OVERHEAD > ACCOUNT_SPACE || n > ACCOUNT_SPACE - used - RECORD_OVERHEAD {
        return Err(GifError::CapacityExceeded);
    }
    let ghost before = ctx.base_account@;
    proof {
        lemma_records_size_lower(before.gif_list);
    }
    let item = ItemStruct { gif_link, user_address: ctx.user.key };
    let ghost v = item@;
    ctx.base_account.gif_list.push(item);
    ctx.base_account.total_gifs = ctx.base_account.total_gifs + 1;
    proof {
        let after = ctx.base_account@;
        assert(after.gif_list =~= before.gif_list.push(v));
        assert(after.gif_list.drop_last() =~= before.gif_list);
    }
    Ok(())
}

} // verus!
