use vstd::prelude::*;

use crate::encode::{i64_le, u16_le, u64_le};
use crate::errors::ErrorCode;
use crate::keys::Pubkey;

verus! {

/// Largest number of asset identifiers the whitelist may hold.
pub const MAX_WHITELIST: usize = 10;

/// Write-once global configuration: the designated admin, the whitelist of
/// permitted asset identifiers, and a protocol version kept for migrations.
#[derive(Clone, Debug)]
pub struct Config {
    pub admin: Pubkey,
    pub whitelist: Vec<Pubkey>,
    pub protocol_version: u16,
    pub bump: u8,
}

/// Per-user ledger: a monotonic counter of the trades logged so far, starting
/// at zero, incremented by exactly one per successful logging transaction.
#[derive(Clone, Copy, Debug)]
pub struct UserState {
    pub user: Pubkey,
    pub trade_count: u64,
    pub bump: u8,
}

impl Config {
    /// Read-only whitelist-membership query.
    pub fn allows_token(&self, token: &Pubkey) -> (r: bool)
        ensures
            r == in_whitelist(self.whitelist@, token@),
    {
        whitelist_contains(&self.whitelist, token)
    }

    /// Is `key` the designated admin?
    pub fn is_admin(&self, key: &Pubkey) -> (r: bool)
        ensures
            r == (key@ == self.admin@),
    {
        key.equals(&self.admin)
    }
}

impl UserState {
    /// The current counter value, read without mutation: the index the next
    /// record of this user will be created at.
    pub fn peek_index(&self) -> (r: u64)
        ensures
            r == self.trade_count,
    {
        self.trade_count
    }

    /// Increase the counter by exactly one, with checked arithmetic.  At the
    /// maximum representable value it fails `Overflow` and mutates nothing.
    pub fn commit_increment(&mut self) -> (r: Result<(), ErrorCode>)
        ensures
            old(self).trade_count == u64::MAX ==> r == Err::<(), ErrorCode>(ErrorCode::Overflow)
                && *final(self) == *old(self),
            old(self).trade_count < u64::MAX ==> r == Ok::<(), ErrorCode>(())
                && final(self).trade_count == old(self).trade_count + 1
                && final(self).user == old(self).user && final(self).bump == old(self).bump,
    {
        if self.trade_count == u64::MAX {
            return Err(ErrorCode::Overflow);
        }
        self.trade_count = self.trade_count + 1;
        Ok(())
    }
}

/// One immutable logged trade, never updated or destroyed once created.
#[derive(Clone, Copy, Debug)]
pub struct TradeRecord {
    pub trade_type: u8,
    pub slippage_bps: u16,
    pub tag: [u8; 16],
    pub trade_id: [u8; 32],
    pub user: Pubkey,
    pub token_in: Pubkey,
    pub token_out: Pubkey,
    pub amount: u64,
    pub price: u64,
    pub timestamp: i64,
    pub bump: u8,
}

/// The notification emitted on each successful `log_trade`, carrying the new
/// record's fields for off-chain indexers.
#[derive(Clone, Copy, Debug)]
pub struct TradeEvent {
    pub trade_id: [u8; 32],
    pub user: Pubkey,
    pub token_in: Pubkey,
    pub token_out: Pubkey,
    pub amount: u64,
    pub price: u64,
    pub slippage_bps: u16,
    pub timestamp: i64,
    pub tag: [u8; 16],
}

/// One trade of a batch-logging request (the reserved extension point).
#[derive(Clone, Copy, Debug)]
pub struct TradeInput {
    pub trade_type: u8,
    pub token_in: Pubkey,
    pub token_out: Pubkey,
    pub amount: u64,
    pub price: u64,
    pub slippage_bps: u16,
    pub tag: [u8; 16],
}

/// A record together with the derived address it is stored at.
#[derive(Clone, Copy, Debug)]
pub struct StoredRecord {
    pub address: Pubkey,
    pub record: TradeRecord,
}

/// The whole ledger system under one program identity: the singleton config,
/// one ledger per initialized user, and the store of created records, each at
/// its derived address.
#[derive(Clone, Debug)]
pub struct System {
    pub program_id: Pubkey,
    pub config: Option<Config>,
    pub users: Vec<UserState>,
    pub records: Vec<StoredRecord>,
}

/// Membership of an identity in a whitelist.
pub open spec fn in_whitelist(wl: Seq<Pubkey>, key: Seq<u8>) -> bool {
    exists|i: int| 0 <= i < wl.len() && wl[i]@ == key
}

/// The authorization rule: a signer may act for a user exactly when the
/// signer is that user or the configured admin.
pub open spec fn spec_authorized(signer: Seq<u8>, user: Seq<u8>, admin: Seq<u8>) -> bool {
    signer == user || signer == admin
}

impl System {
    /// Well-formedness: user ledgers have pairwise distinct owners, records
    /// sit at pairwise distinct addresses, and the whitelist is bounded.
    pub open spec fn wf(self) -> bool {
        &&& forall|i: int, j: int|
            0 <= i < j < self.users@.len() ==> self.users@[i].user@ != self.users@[j].user@
        &&& forall|i: int, j: int|
            0 <= i < j < self.records@.len() ==> self.records@[i].address@
                != self.records@[j].address@
        &&& (self.config is Some ==> self.config->Some_0.whitelist@.len() <= MAX_WHITELIST)
    }

    /// Whether a ledger exists for the identity `key`.
    pub open spec fn has_user(self, key: Seq<u8>) -> bool {
        exists|i: int| 0 <= i < self.users@.len() && self.users@[i].user@ == key
    }

    /// The position of `key`'s ledger (meaningful when `has_user` holds; with
    /// `wf` it is unique).
    pub open spec fn user_index_of(self, key: Seq<u8>) -> int {
        choose|i: int| 0 <= i < self.users@.len() && self.users@[i].user@ == key
    }

    /// The ledger of the identity `key`.
    pub open spec fn user_state_of(self, key: Seq<u8>) -> UserState {
        self.users@[self.user_index_of(key)]
    }

    /// Whether some record occupies the address.
    pub open spec fn has_record(self, address: Seq<u8>) -> bool {
        exists|i: int| 0 <= i < self.records@.len() && self.records@[i].address@ == address
    }

    /// A fresh system under the given program identity: no config, no users,
    /// no records.
    pub fn new(program_id: Pubkey) -> (r: System)
        ensures
            r.wf(),
            r.program_id == program_id,
            r.config is None,
            r.users@.len() == 0,
            r.records@.len() == 0,
    {
        System { program_id, config: None, users: Vec::new(), records: Vec::new() }
    }
}

/// Is `key` one of the whitelisted identities?
pub fn whitelist_contains(wl: &Vec<Pubkey>, key: &Pubkey) -> (r: bool)
    ensures
        r == in_whitelist(wl@, key@),
{
    let mut i: usize = 0;
    while i < wl.len()
        invariant
            i <= wl@.len(),
            forall|j: int| 0 <= j < i ==> wl@[j]@ != key@,
        decreases wl@.len() - i,
    {
        if wl[i].equals(key) {
            return true;
        }
        i = i + 1;
    }
    false
}

/// The position of `key`'s ledger among `users`, if the user is initialized.
pub fn find_user(users: &Vec<UserState>, key: &Pubkey) -> (r: Option<usize>)
    ensures
        match r {
            Some(i) => 0 <= i < users@.len() && users@[i as int].user@ == key@,
            None => forall|j: int| 0 <= j < users@.len() ==> users@[j].user@ != key@,
        },
{
    let mut i: usize = 0;
    while i < users.len()
        invariant
            i <= users@.len(),
            forall|j: int| 0 <= j < i ==> users@[j].user@ != key@,
        decreases users@.len() - i,
    {
        if users[i].user.equals(key) {
            return Some(i);
        }
        i = i + 1;
    }
    None
}

/// Does some stored record occupy the address?
pub fn find_record(records: &Vec<StoredRecord>, address: &Pubkey) -> (r: bool)
    ensures
        r == exists|i: int| 0 <= i < records@.len() && records@[i].address@ == address@,
{
    let mut i: usize = 0;
    while i < records.len()
        invariant
            i <= records@.len(),
            forall|j: int| 0 <= j < i ==> records@[j].address@ != address@,
        decreases records@.len() - i,
    {
        if records[i].address.equals(address) {
            return true;
        }
        i = i + 1;
    }
    false
}

/// May `signer` act for `user` under this config?  Exactly when the signer is
/// the user or the admin.
pub fn authorize(signer: &Pubkey, user: &Pubkey, config: &Config) -> (r: bool)
    ensures
        r == spec_authorized(signer@, user@, config.admin@),
{
    signer.equals(user) || signer.equals(&config.admin)
}

impl TradeRecord {
    /// The canonical persisted byte layout of a record, after any storage
    /// header: each field in fixed order, integers little-endian.
    pub open spec fn layout(self) -> Seq<u8> {
        seq![self.trade_type] + u16_le(self.slippage_bps) + self.tag@ + self.trade_id@
            + self.user@ + self.token_in@ + self.token_out@ + u64_le(self.amount) + u64_le(
            self.price,
        ) + i64_le(self.timestamp)
    }

    /// Serialize the record into exactly its canonical layout: 171 bytes.
    pub fn to_bytes(&self) -> (r: Vec<u8>)
        ensures
            r@ == self.layout(),
            r@.len() == 171,
    {
        let mut v: Vec<u8> = Vec::new();
        v.push(self.trade_type);
        let slippage_bytes = crate::encode::u16_to_le(self.slippage_bps);
        crate::encode::push_bytes(&mut v, &slippage_bytes);
        crate::encode::push_array(&mut v, &self.tag);
        crate::encode::push_array(&mut v, &self.trade_id);
        crate::encode::push_array(&mut v, &self.user.bytes);
        crate::encode::push_array(&mut v, &self.token_in.bytes);
        crate::encode::push_array(&mut v, &self.token_out.bytes);
        let amount_bytes = crate::encode::u64_to_le(self.amount);
        crate::encode::push_bytes(&mut v, &amount_bytes);
        let price_bytes = crate::encode::u64_to_le(self.price);
        crate::encode::push_bytes(&mut v, &price_bytes);
        let timestamp_bytes = crate::encode::i64_to_le(self.timestamp);
        crate::encode::push_bytes(&mut v, &timestamp_bytes);
        proof {
            assert(v@ =~= self.layout());
        }
        v
    }
}

} // verus!
