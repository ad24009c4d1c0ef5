use swap_logger::addresses::derive_trade_record_address;
use swap_logger::state::whitelist_contains;
use swap_logger::{
    initialize, initialize_config, log_trade, log_trades, ErrorCode, Pubkey, System, TradeInput,
};

fn key(b: u8) -> Pubkey {
    let mut bytes = [0u8; 32];
    for i in 0..32 {
        bytes[i] = b.wrapping_add(i as u8);
    }
    Pubkey::new(bytes)
}

fn program_id() -> Pubkey {
    key(200)
}

/// A system with admin `A`, whitelist `[M1, M2]`, and user `U` initialized.
fn ready_system() -> System {
    let mut sys = System::new(program_id());
    let admin = key(1);
    let whitelist = vec![key(2), key(3)];
    initialize_config(&mut sys, admin, whitelist, 1).expect("config must initialize");
    initialize(&mut sys, key(4)).expect("user must initialize");
    sys
}

#[test]
fn test_initialize_config_rejects_second_call() {
    let mut sys = System::new(program_id());
    assert!(initialize_config(&mut sys, key(1), vec![key(2)], 1).is_ok());
    let cfg = sys.config.as_ref().expect("config must exist");
    assert!(cfg.admin.equals(&key(1)));
    assert_eq!(cfg.protocol_version, 1);
    let r = initialize_config(&mut sys, key(9), vec![key(8)], 2);
    assert!(matches!(r, Err(ErrorCode::AlreadyExists)));
    // the first configuration stands untouched
    let cfg = sys.config.as_ref().unwrap();
    assert!(cfg.admin.equals(&key(1)));
    assert_eq!(cfg.protocol_version, 1);
}

#[test]
fn test_initialize_config_capacity() {
    let mut sys = System::new(program_id());
    let oversized: Vec<Pubkey> = (0..11).map(|i| key(i as u8)).collect();
    let r = initialize_config(&mut sys, key(1), oversized, 1);
    assert!(matches!(r, Err(ErrorCode::CapacityExceeded)));
    assert!(sys.config.is_none());
    let full: Vec<Pubkey> = (0..10).map(|i| key(i as u8)).collect();
    assert!(initialize_config(&mut sys, key(1), full, 1).is_ok());
}

#[test]
fn test_config_queries() {
    let mut sys = System::new(program_id());
    initialize_config(&mut sys, key(1), vec![key(2), key(3)], 1).unwrap();
    let cfg = sys.config.as_ref().unwrap();
    assert!(cfg.is_admin(&key(1)));
    assert!(!cfg.is_admin(&key(2)));
    assert!(cfg.allows_token(&key(2)));
    assert!(cfg.allows_token(&key(3)));
    assert!(!cfg.allows_token(&key(9)));
}

#[test]
fn test_initialize_user_twice() {
    let mut sys = System::new(program_id());
    let user = key(4);
    assert!(initialize(&mut sys, user).is_ok());
    assert_eq!(sys.users.len(), 1);
    assert!(sys.users[0].user.equals(&user));
    assert_eq!(sys.users[0].trade_count, 0);
    let first_bump = sys.users[0].bump;

    let r = initialize(&mut sys, user);
    assert!(matches!(r, Err(ErrorCode::AlreadyExists)));
    // the state is identical to the state after the first call alone
    assert_eq!(sys.users.len(), 1);
    assert!(sys.users[0].user.equals(&user));
    assert_eq!(sys.users[0].trade_count, 0);
    assert_eq!(sys.users[0].bump, first_bump);
}

#[test]
fn test_token_whitelist_check() {
    let whitelist = vec![key(2), key(3)];
    let token = whitelist[0];
    assert!(
        whitelist_contains(&whitelist, &token),
        "Token should be in whitelist"
    );

    let non_whitelisted = key(77);
    assert!(
        !whitelist_contains(&whitelist, &non_whitelisted),
        "Token should not be in whitelist"
    );
}

#[test]
fn test_log_trade_success_scenario() {
    let mut sys = ready_system();
    let user = key(4);
    let (expect_addr, _) = derive_trade_record_address(&user, 0, &program_id()).unwrap();

    let event = log_trade(
        &mut sys,
        user,
        user,
        0,
        key(2),
        key(3),
        1_000,
        500,
        30,
        [0u8; 16],
        1_700_000_000,
    )
    .expect("a valid trade must be logged");

    assert_eq!(sys.users[0].trade_count, 1);
    assert_eq!(sys.records.len(), 1);
    let stored = &sys.records[0];
    // the record sits at the address derived from (user, 0)
    assert_eq!(stored.address.bytes, expect_addr);
    let rec = &stored.record;
    assert_eq!(rec.trade_type, 0);
    assert!(rec.user.equals(&user));
    assert!(rec.token_in.equals(&key(2)));
    assert!(rec.token_out.equals(&key(3)));
    assert_eq!(rec.amount, 1_000);
    assert_eq!(rec.price, 500);
    assert_eq!(rec.slippage_bps, 30);
    assert_eq!(rec.timestamp, 1_700_000_000);
    assert_eq!(rec.tag, [0u8; 16]);
    // the notification carries exactly the record's fields
    assert_eq!(event.trade_id, rec.trade_id);
    assert!(event.user.equals(&rec.user));
    assert!(event.token_in.equals(&rec.token_in));
    assert!(event.token_out.equals(&rec.token_out));
    assert_eq!(event.amount, rec.amount);
    assert_eq!(event.price, rec.price);
    assert_eq!(event.slippage_bps, rec.slippage_bps);
    assert_eq!(event.timestamp, rec.timestamp);
    assert_eq!(event.tag, rec.tag);
}

#[test]
fn test_log_trade_admin_may_log_for_user() {
    let mut sys = ready_system();
    let admin = key(1);
    let user = key(4);
    let r = log_trade(
        &mut sys,
        admin,
        user,
        1,
        key(2),
        key(3),
        5,
        7,
        9,
        [1u8; 16],
        1_700_000_100,
    );
    assert!(r.is_ok());
    assert_eq!(sys.users[0].trade_count, 1);
}

#[test]
fn test_log_trade_unauthorized_signer() {
    let mut sys = ready_system();
    let outsider = key(99);
    let user = key(4);
    let r = log_trade(
        &mut sys,
        outsider,
        user,
        0,
        key(2),
        key(3),
        1_000,
        500,
        30,
        [0u8; 16],
        1_700_000_000,
    );
    assert!(matches!(r, Err(ErrorCode::UnauthorizedLogger)));
    assert_eq!(sys.users[0].trade_count, 0);
    assert_eq!(sys.records.len(), 0);
}

#[test]
fn test_amount_non_zero() {
    let mut sys = ready_system();
    let user = key(4);
    let r = log_trade(
        &mut sys,
        user,
        user,
        0,
        key(2),
        key(3),
        0,
        500,
        30,
        [0u8; 16],
        1_700_000_000,
    );
    assert!(matches!(r, Err(ErrorCode::InvalidAmount)), "Amount must be non-zero");
    assert_eq!(sys.users[0].trade_count, 0);
}

#[test]
fn test_log_trade_amount_one_succeeds() {
    let mut sys = ready_system();
    let user = key(4);
    let r = log_trade(
        &mut sys,
        user,
        user,
        0,
        key(2),
        key(3),
        1,
        500,
        30,
        [0u8; 16],
        1_700_000_000,
    );
    assert!(r.is_ok());
    assert_eq!(sys.users[0].trade_count, 1);
}

#[test]
fn test_log_trade_unlisted_token() {
    let mut sys = ready_system();
    let user = key(4);
    let unlisted = key(55);
    let r = log_trade(
        &mut sys,
        user,
        user,
        0,
        key(2),
        unlisted,
        1_000,
        500,
        30,
        [0u8; 16],
        1_700_000_000,
    );
    assert!(matches!(r, Err(ErrorCode::InvalidToken)));
    assert_eq!(sys.users[0].trade_count, 0);
    assert_eq!(sys.records.len(), 0);

    let r = log_trade(
        &mut sys,
        user,
        user,
        0,
        unlisted,
        key(3),
        1_000,
        500,
        30,
        [0u8; 16],
        1_700_000_000,
    );
    assert!(matches!(r, Err(ErrorCode::InvalidToken)));
    assert_eq!(sys.users[0].trade_count, 0);
}

#[test]
fn test_log_trade_counter_overflow() {
    let mut sys = ready_system();
    let user = key(4);
    sys.users[0].trade_count = u64::MAX;
    let r = log_trade(
        &mut sys,
        user,
        user,
        0,
        key(2),
        key(3),
        1_000,
        500,
        30,
        [0u8; 16],
        1_700_000_000,
    );
    assert!(matches!(r, Err(ErrorCode::Overflow)));
    assert_eq!(sys.users[0].trade_count, u64::MAX);
    assert_eq!(sys.records.len(), 0);
}

#[test]
fn test_log_trade_occupied_address() {
    let mut sys = ready_system();
    let user = key(4);
    assert!(log_trade(
        &mut sys,
        user,
        user,
        0,
        key(2),
        key(3),
        1_000,
        500,
        30,
        [0u8; 16],
        1_700_000_000,
    )
    .is_ok());
    // wind the counter back: the next derivation targets the occupied address
    sys.users[0].trade_count = 0;
    let r = log_trade(
        &mut sys,
        user,
        user,
        0,
        key(2),
        key(3),
        1_000,
        500,
        30,
        [0u8; 16],
        1_700_000_000,
    );
    assert!(matches!(r, Err(ErrorCode::AlreadyExists)));
    assert_eq!(sys.records.len(), 1);
    assert_eq!(sys.users[0].trade_count, 0);
}

#[test]
fn test_log_trade_two_trades_two_addresses() {
    let mut sys = ready_system();
    let user = key(4);
    for _ in 0..2 {
        assert!(log_trade(
            &mut sys,
            user,
            user,
            0,
            key(2),
            key(3),
            1_000,
            500,
            30,
            [0u8; 16],
            1_700_000_000,
        )
        .is_ok());
    }
    assert_eq!(sys.users[0].trade_count, 2);
    assert_eq!(sys.records.len(), 2);
    assert_ne!(sys.records[0].address.bytes, sys.records[1].address.bytes);
    // same fields in the same second: an identical identifier, distinct addresses
    assert_eq!(sys.records[0].record.trade_id, sys.records[1].record.trade_id);
}

#[test]
fn test_peek_index_and_commit_increment() {
    let mut st = swap_logger::UserState { user: key(4), trade_count: 0, bump: 7 };
    assert_eq!(st.peek_index(), 0);
    assert!(st.commit_increment().is_ok());
    assert_eq!(st.peek_index(), 1);
    st.trade_count = u64::MAX;
    assert!(matches!(st.commit_increment(), Err(ErrorCode::Overflow)));
    assert_eq!(st.trade_count, u64::MAX);
    assert_eq!(st.bump, 7);
}

#[test]
fn test_check_trade_request_order() {
    let cfg = swap_logger::Config {
        admin: key(1),
        whitelist: vec![key(2)],
        protocol_version: 1,
        bump: 0,
    };
    // an unauthorized signer outranks every other failure
    let r = swap_logger::ops::check_trade_request(&cfg, &key(99), &key(4), &key(50), &key(51), 0);
    assert!(matches!(r, Some(ErrorCode::UnauthorizedLogger)));
    // then the amount, even with unlisted tokens
    let r = swap_logger::ops::check_trade_request(&cfg, &key(4), &key(4), &key(50), &key(51), 0);
    assert!(matches!(r, Some(ErrorCode::InvalidAmount)));
    // then the tokens
    let r = swap_logger::ops::check_trade_request(&cfg, &key(4), &key(4), &key(50), &key(2), 5);
    assert!(matches!(r, Some(ErrorCode::InvalidToken)));
    // a fully valid request passes
    let r = swap_logger::ops::check_trade_request(&cfg, &key(1), &key(4), &key(2), &key(2), 5);
    assert!(r.is_none());
}

#[test]
fn test_log_trades_is_a_stub() {
    let mut sys = ready_system();
    let trades = vec![TradeInput {
        trade_type: 0,
        token_in: key(2),
        token_out: key(3),
        amount: 1,
        price: 1,
        slippage_bps: 1,
        tag: [0u8; 16],
    }];
    assert!(log_trades(&mut sys, trades).is_ok());
    assert_eq!(sys.users[0].trade_count, 0);
    assert_eq!(sys.records.len(), 0);
}
