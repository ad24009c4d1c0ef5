use vstd::prelude::*;

use crate::addresses::{
    config_seeds, derive_config_address, derive_trade_record_address, derive_user_state_address,
    pda_of, trade_record_seeds, user_state_seeds,
};
use crate::errors::ErrorCode;
use crate::hashing::{compute_trade_id, trade_id_of};
use crate::keys::Pubkey;
use crate::state::{
    authorize, find_record, find_user, in_whitelist, spec_authorized, whitelist_contains, Config,
    StoredRecord, System, TradeEvent, TradeInput, TradeRecord, UserState, MAX_WHITELIST,
};

verus! {

/// The first validation failure of a `log_trade` request, if any:
/// authorization, then the amount, then each token against the whitelist.
pub open spec fn log_trade_check(
    cfg: Config,
    signer: Pubkey,
    user: Pubkey,
    token_in: Pubkey,
    token_out: Pubkey,
    amount: u64,
) -> Option<ErrorCode> {
    if !spec_authorized(signer@, user@, cfg.admin@) {
        Some(ErrorCode::UnauthorizedLogger)
    } else if amount == 0 {
        Some(ErrorCode::InvalidAmount)
    } else if !in_whitelist(cfg.whitelist@, token_in@) {
        Some(ErrorCode::InvalidToken)
    } else if !in_whitelist(cfg.whitelist@, token_out@) {
        Some(ErrorCode::InvalidToken)
    } else {
        None
    }
}

/// The record a successful `log_trade` creates: every field taken from the
/// request, the identifier from the trade fields and the timestamp, and the
/// bump seed from the address derivation.
pub open spec fn record_matches(
    rec: TradeRecord,
    user: Pubkey,
    trade_type: u8,
    token_in: Pubkey,
    token_out: Pubkey,
    amount: u64,
    price: u64,
    slippage_bps: u16,
    tag: [u8; 16],
    timestamp: i64,
    bump: u8,
) -> bool {
    &&& rec.trade_type == trade_type
    &&& rec.slippage_bps == slippage_bps
    &&& rec.tag@ == tag@
    &&& rec.trade_id@ == trade_id_of(
        user@,
        token_in@,
        token_out@,
        amount,
        price,
        slippage_bps,
        timestamp,
    )
    &&& rec.user@ == user@
    &&& rec.token_in@ == token_in@
    &&& rec.token_out@ == token_out@
    &&& rec.amount == amount
    &&& rec.price == price
    &&& rec.timestamp == timestamp
    &&& rec.bump == bump
}

/// The emitted notification carries exactly the record's fields.
pub open spec fn event_matches(ev: TradeEvent, rec: TradeRecord) -> bool {
    &&& ev.trade_id@ == rec.trade_id@
    &&& ev.user@ == rec.user@
    &&& ev.token_in@ == rec.token_in@
    &&& ev.token_out@ == rec.token_out@
    &&& ev.amount == rec.amount
    &&& ev.price == rec.price
    &&& ev.slippage_bps == rec.slippage_bps
    &&& ev.timestamp == rec.timestamp
    &&& ev.tag@ == rec.tag@
}

/// Validate a `log_trade` request against a configuration, without touching
/// any state: the first failing check, or `None` when every check passes.
pub fn check_trade_request(
    cfg: &Config,
    signer: &Pubkey,
    user: &Pubkey,
    token_in: &Pubkey,
    token_out: &Pubkey,
    amount: u64,
) -> (r: Option<ErrorCode>)
    ensures
        r == log_trade_check(*cfg, *signer, *user, *token_in, *token_out, amount),
{
    if !authorize(signer, user, cfg) {
        Some(ErrorCode::UnauthorizedLogger)
    } else if amount == 0 {
        Some(ErrorCode::InvalidAmount)
    } else if !whitelist_contains(&cfg.whitelist, token_in) {
        Some(ErrorCode::InvalidToken)
    } else if !whitelist_contains(&cfg.whitelist, token_out) {
        Some(ErrorCode::InvalidToken)
    } else {
        None
    }
}

/// Create the write-once global configuration.  Fails `CapacityExceeded`
/// when the whitelist is over the bound, and `AlreadyExists` when the config
/// was created before; every failure leaves the system unchanged.
pub fn initialize_config(
    system: &mut System,
    admin: Pubkey,
    whitelist: Vec<Pubkey>,
    protocol_version: u16,
) -> (r: Result<(), ErrorCode>)
    requires
        old(system).wf(),
    ensures
        final(system).wf(),
        r is Err ==> *final(system) == *old(system),
        ({
            let d = pda_of(config_seeds(), old(system).program_id@);
            if whitelist@.len() > MAX_WHITELIST {
                r == Err::<(), ErrorCode>(ErrorCode::CapacityExceeded)
            } else if old(system).config is Some {
                r == Err::<(), ErrorCode>(ErrorCode::AlreadyExists)
            } else if d is None {
                r is Err
            } else {
                &&& r == Ok::<(), ErrorCode>(())
                &&& final(system).config matches Some(cfg) && cfg == (Config {
                    admin,
                    whitelist,
                    protocol_version,
                    bump: d->Some_0.1,
                })
                &&& final(system).users == old(system).users
                &&& final(system).records == old(system).records
                &&& final(system).program_id == old(system).program_id
            }
        }),
{
    if whitelist.len() > MAX_WHITELIST {
        return Err(ErrorCode::CapacityExceeded);
    }
    if system.config.is_some() {
        return Err(ErrorCode::AlreadyExists);
    }
    match derive_config_address(&system.program_id) {
        None => Err(ErrorCode::AlreadyExists),
        Some((_, bump)) => {
            system.config = Some(Config { admin, whitelist, protocol_version, bump });
            Ok(())
        },
    }
}

/// Create the ledger of `user` with a zero trade counter.  Fails
/// `AlreadyExists`, changing nothing, when the user was initialized before.
pub fn initialize(system: &mut System, user: Pubkey) -> (r: Result<(), ErrorCode>)
    requires
        old(system).wf(),
    ensures
        final(system).wf(),
        r is Err ==> *final(system) == *old(system),
        r is Ok ==> final(system).has_user(user@),
        ({
            let d = pda_of(user_state_seeds(user@), old(system).program_id@);
            if old(system).has_user(user@) {
                r == Err::<(), ErrorCode>(ErrorCode::AlreadyExists)
            } else if d is None {
                r is Err
            } else {
                &&& r == Ok::<(), ErrorCode>(())
                &&& final(system).users@ == old(system).users@.push(
                    (UserState { user, trade_count: 0, bump: d->Some_0.1 }),
                )
                &&& final(system).config == old(system).config
                &&& final(system).records == old(system).records
                &&& final(system).program_id == old(system).program_id
            }
        }),
{
    match find_user(&system.users, &user) {
        Some(_) => {
            return Err(ErrorCode::AlreadyExists);
        },
        None => {},
    }
    match derive_user_state_address(&user, &system.program_id) {
        None => Err(ErrorCode::AlreadyExists),
        Some((_, bump)) => {
            system.users.push(UserState { user, trade_count: 0, bump });
            proof {
                assert forall|i: int, j: int| 0 <= i < j < system.users@.len() implies system
                    .users@[i].user@ != system.users@[j].user@ by {
                    if j == system.users@.len() - 1 {
                        assert(system.users@[i] == old(system).users@[i]);
                        assert(old(system).users@[i].user@ != user@);
                    } else {
                        assert(system.users@[i] == old(system).users@[i]);
                        assert(system.users@[j] == old(system).users@[j]);
                    }
                }
                assert(system.users@[system.users@.len() - 1].user@ == user@);
            }
            Ok(())
        },
    }
}

/// Log one trade for `user`, as one atomic transaction: authorize the
/// signer, validate the amount and both tokens, derive the record address
/// from the pre-call counter, guard the address and the counter, create the
/// record with its computed identifier, and increment the counter by exactly
/// one.  Every failure leaves the system unchanged.  `timestamp` is the one
/// trusted clock reading taken for this transaction by the hosting
/// environment, shared between the identifier and the stored record.
pub fn log_trade(
    system: &mut System,
    signer: Pubkey,
    user: Pubkey,
    trade_type: u8,
    token_in: Pubkey,
    token_out: Pubkey,
    amount: u64,
    price: u64,
    slippage_bps: u16,
    tag: [u8; 16],
    timestamp: i64,
) -> (r: Result<TradeEvent, ErrorCode>)
    requires
        old(system).wf(),
        old(system).config is Some,
        old(system).has_user(user@),
    ensures
        final(system).wf(),
        r is Err ==> *final(system) == *old(system),
        ({
            let cfg = old(system).config->Some_0;
            let st = old(system).user_state_of(user@);
            let d = pda_of(trade_record_seeds(user@, st.trade_count), old(system).program_id@);
            let checked = log_trade_check(cfg, signer, user, token_in, token_out, amount);
            if checked is Some {
                r == Err::<TradeEvent, ErrorCode>(checked->Some_0)
            } else if d is None {
                r is Err
            } else if old(system).has_record(d->Some_0.0) {
                r == Err::<TradeEvent, ErrorCode>(ErrorCode::AlreadyExists)
            } else if st.trade_count == u64::MAX {
                r == Err::<TradeEvent, ErrorCode>(ErrorCode::Overflow)
            } else {
                &&& r is Ok
                &&& final(system).config == old(system).config
                &&& final(system).program_id == old(system).program_id
                &&& final(system).users@.len() == old(system).users@.len()
                &&& forall|j: int|
                    0 <= j < final(system).users@.len() && final(system).users@[j].user@ != user@
                        ==> final(system).users@[j] == old(system).users@[j]
                &&& final(system).has_user(user@)
                &&& final(system).user_state_of(user@) == (UserState {
                    user: st.user,
                    trade_count: (st.trade_count + 1) as u64,
                    bump: st.bump,
                })
                &&& final(system).records@.len() == old(system).records@.len() + 1
                &&& forall|j: int|
                    0 <= j < old(system).records@.len() ==> final(system).records@[j] == old(
                        system,
                    ).records@[j]
                &&& final(system).records@.last().address@ == d->Some_0.0
                &&& record_matches(
                    final(system).records@.last().record,
                    user,
                    trade_type,
                    token_in,
                    token_out,
                    amount,
                    price,
                    slippage_bps,
                    tag,
                    timestamp,
                    d->Some_0.1,
                )
                &&& event_matches(r->Ok_0, final(system).records@.last().record)
            }
        }),
{
    let checked = match &system.config {
        Some(cfg) => check_trade_request(cfg, &signer, &user, &token_in, &token_out, amount),
        None => Some(ErrorCode::AlreadyExists),  // never reached: the config exists
    };
    match checked {
        Some(e) => {
            return Err(e);
        },
        None => {},
    }
    let uidx = match find_user(&system.users, &user) {
        Some(i) => i,
        None => {
            return Err(ErrorCode::AlreadyExists);  // never reached: the user exists
        },
    };
    proof {
        let ghost oi = old(system).user_index_of(user@);
        assert(0 <= oi < old(system).users@.len() && old(system).users@[oi].user@ == user@);
        if oi < uidx as int {
            assert(old(system).users@[oi].user@ != old(system).users@[uidx as int].user@);
        } else if (uidx as int) < oi {
            assert(old(system).users@[uidx as int].user@ != old(system).users@[oi].user@);
        }
        assert(old(system).user_state_of(user@) == old(system).users@[uidx as int]);
    }
    let st = system.users[uidx];
    let (addr, bump) = match derive_trade_record_address(&user, st.trade_count, &system.program_id)
    {
        Some(p) => p,
        None => {
            // no bump seed yields a derivable address for this index
            return Err(ErrorCode::AlreadyExists);
        },
    };
    let address = Pubkey::new(addr);
    if find_record(&system.records, &address) {
        return Err(ErrorCode::AlreadyExists);
    }
    let mut updated = st;
    match updated.commit_increment() {
        Err(e) => {
            return Err(e);
        },
        Ok(()) => {},
    }
    let trade_id = compute_trade_id(
        &user,
        &token_in,
        &token_out,
        amount,
        price,
        slippage_bps,
        timestamp,
    );
    let record = TradeRecord {
        trade_type,
        slippage_bps,
        tag,
        trade_id,
        user,
        token_in,
        token_out,
        amount,
        price,
        timestamp,
        bump,
    };
    system.records.push(StoredRecord { address, record });
    system.users[uidx] = updated;
    proof {
        assert forall|i: int, j: int| 0 <= i < j < system.users@.len() implies system
            .users@[i].user@ != system.users@[j].user@ by {
            assert(system.users@[i].user@ == old(system).users@[i].user@);
            assert(system.users@[j].user@ == old(system).users@[j].user@);
        }
        assert forall|i: int, j: int| 0 <= i < j < system.records@.len() implies system
            .records@[i].address@ != system.records@[j].address@ by {
            if j == system.records@.len() - 1 {
                assert(system.records@[i] == old(system).records@[i]);
                if old(system).records@[i].address@ == addr@ {
                    assert(old(system).has_record(addr@));
                }
            } else {
                assert(system.records@[i] == old(system).records@[i]);
                assert(system.records@[j] == old(system).records@[j]);
            }
        }
        assert(system.users@[uidx as int].user@ == user@);
        assert(system.has_user(user@));
        let ghost fi = system.user_index_of(user@);
        assert(0 <= fi < system.users@.len() && system.users@[fi].user@ == user@);
        if fi < uidx as int {
            assert(system.users@[fi].user@ != system.users@[uidx as int].user@);
        } else if (uidx as int) < fi {
            assert(system.users@[uidx as int].user@ != system.users@[fi].user@);
        }
        assert(system.user_state_of(user@) == updated);
    }
    let event = TradeEvent {
        trade_id,
        user,
        token_in,
        token_out,
        amount,
        price,
        slippage_bps,
        timestamp,
        tag,
    };
    Ok(event)
}

/// Law: a signer who is neither the user nor the admin is rejected as
/// `UnauthorizedLogger`, whatever the remaining arguments hold.
pub proof fn lemma_unauthorized_signer_rejected(
    cfg: Config,
    signer: Pubkey,
    user: Pubkey,
    token_in: Pubkey,
    token_out: Pubkey,
    amount: u64,
)
    requires
        signer@ != user@,
        signer@ != cfg.admin@,
    ensures
        log_trade_check(cfg, signer, user, token_in, token_out, amount) == Some(
            ErrorCode::UnauthorizedLogger,
        ),
{
}

/// Law: an authorized request with a zero amount is rejected as
/// `InvalidAmount`, whatever the tokens are.
pub proof fn lemma_zero_amount_rejected(
    cfg: Config,
    signer: Pubkey,
    user: Pubkey,
    token_in: Pubkey,
    token_out: Pubkey,
)
    requires
        spec_authorized(signer@, user@, cfg.admin@),
    ensures
        log_trade_check(cfg, signer, user, token_in, token_out, 0) == Some(
            ErrorCode::InvalidAmount,
        ),
{
}

/// Law: an authorized request with a positive amount is rejected as
/// `InvalidToken` when either token is absent from the whitelist.
pub proof fn lemma_unlisted_token_rejected(
    cfg: Config,
    signer: Pubkey,
    user: Pubkey,
    token_in: Pubkey,
    token_out: Pubkey,
    amount: u64,
)
    requires
        spec_authorized(signer@, user@, cfg.admin@),
        amount > 0,
        !in_whitelist(cfg.whitelist@, token_in@) || !in_whitelist(cfg.whitelist@, token_out@),
    ensures
        log_trade_check(cfg, signer, user, token_in, token_out, amount) == Some(
            ErrorCode::InvalidToken,
        ),
{
}

/// Law: a request with an authorized signer, a positive amount, and both
/// tokens whitelisted passes every validation.
pub proof fn lemma_valid_request_accepted(
    cfg: Config,
    signer: Pubkey,
    user: Pubkey,
    token_in: Pubkey,
    token_out: Pubkey,
    amount: u64,
)
    requires
        spec_authorized(signer@, user@, cfg.admin@),
        amount > 0,
        in_whitelist(cfg.whitelist@, token_in@),
        in_whitelist(cfg.whitelist@, token_out@),
    ensures
        log_trade_check(cfg, signer, user, token_in, token_out, amount) is None,
{
}

/// Reserved batch-logging entry point.  A batch request is accepted and no
/// trade is logged: the semantics of multi-record batches are deliberately
/// left out of this core, and no part of the state changes.
pub fn log_trades(system: &mut System, trades: Vec<TradeInput>) -> (r: Result<(), ErrorCode>)
    ensures
        r is Ok,
        *final(system) == *old(system),
{
    let _ = trades;
    Ok(())
}

} // verus!
