use isolate::{
    authorize, screen, settle, swap, AuthorizationRequest, DarkSwap, ErrorCode, Exchange,
    ExchangeError, ExchangeOrder, GlobalState, PendingSwap, SwapContext, UserState, Vault,
};

const BONDED: i64 = 1_700_000_000;

struct Recorder {
    orders: Vec<ExchangeOrder>,
    refuse: bool,
}

impl Exchange for Recorder {
    fn swap_base_input(&mut self, order: &ExchangeOrder) -> Result<(), ExchangeError> {
        self.orders.push(*order);
        if self.refuse {
            Err(ExchangeError {})
        } else {
            Ok(())
        }
    }
}

fn context() -> SwapContext {
    SwapContext {
        user: [1u8; 32],
        swap_authority: [2u8; 32],
        user_sol: [3u8; 32],
        user_token: [4u8; 32],
        input_mint: [5u8; 32],
        output_mint: [6u8; 32],
        global_state: GlobalState { swap_count: 0, total_swapped: 0, bond_timestamp: BONDED },
        vault: Vault { nonce: 0 },
        user_state: UserState { last_swap: 0 },
    }
}

fn request(amount_in: u64, is_buy: bool, nonce: u64) -> AuthorizationRequest {
    AuthorizationRequest {
        amount_in,
        is_buy,
        minimum_amount_out: 42,
        nonce,
        signature: [0u8; 96],
        public_key: [0u8; 48],
    }
}

#[test]
fn screen_refuses_a_request_whose_signature_was_not_accepted() {
    let ctx = context();
    let res = screen(&ctx, &request(10, true, 0), false, BONDED + 500);
    assert_eq!(res, Err(ErrorCode::InvalidAuthorization));
}

#[test]
fn screen_refuses_a_wrong_nonce() {
    let mut ctx = context();
    ctx.vault.nonce = 5;
    assert_eq!(
        screen(&ctx, &request(10, true, 4), true, BONDED + 500),
        Err(ErrorCode::StaleOrFutureNonce)
    );
    assert_eq!(
        screen(&ctx, &request(10, true, 6), true, BONDED + 500),
        Err(ErrorCode::StaleOrFutureNonce)
    );
    assert!(screen(&ctx, &request(10, true, 5), true, BONDED + 500).is_ok());
}

#[test]
fn screen_reports_overflow_of_the_nonce() {
    let mut ctx = context();
    ctx.vault.nonce = u64::MAX;
    assert_eq!(
        screen(&ctx, &request(10, true, u64::MAX), true, BONDED + 500),
        Err(ErrorCode::MathOverflow)
    );
}

#[test]
fn first_trade_one_second_early_is_refused() {
    let ctx = context();
    assert_eq!(
        screen(&ctx, &request(10, true, 0), true, BONDED + 119),
        Err(ErrorCode::CooldownActive)
    );
}

#[test]
fn first_trade_at_the_boundary_passes() {
    let ctx = context();
    assert!(screen(&ctx, &request(10, true, 0), true, BONDED + 120).is_ok());
}

#[test]
fn later_trades_are_not_gated() {
    let mut ctx = context();
    ctx.global_state.swap_count = 1;
    assert!(screen(&ctx, &request(10, true, 0), true, BONDED).is_ok());
    assert!(screen(&ctx, &request(10, true, 0), true, i64::MIN).is_ok());
}

#[test]
fn checks_run_in_order() {
    let mut ctx = context();
    ctx.vault.nonce = 5;
    assert_eq!(
        screen(&ctx, &request(10, true, 4), false, BONDED),
        Err(ErrorCode::InvalidAuthorization)
    );
    assert_eq!(
        screen(&ctx, &request(10, true, 4), true, BONDED),
        Err(ErrorCode::StaleOrFutureNonce)
    );
    assert_eq!(
        screen(&ctx, &request(10, true, 5), true, BONDED),
        Err(ErrorCode::CooldownActive)
    );
}

#[test]
fn buy_pays_from_the_base_account_less_the_fee() {
    let ctx = context();
    let pending = screen(&ctx, &request(10_000_000_000, true, 0), true, BONDED + 120).unwrap();
    assert_eq!(
        pending.order,
        ExchangeOrder {
            input_account: [3u8; 32],
            output_account: [4u8; 32],
            input_mint: [5u8; 32],
            output_mint: [6u8; 32],
            amount_in: 9_750_000_000,
            minimum_amount_out: 42,
        }
    );
}

#[test]
fn sell_pays_from_the_token_account_in_full() {
    let ctx = context();
    let pending = screen(&ctx, &request(10_000_000_000, false, 0), true, BONDED + 120).unwrap();
    assert_eq!(
        pending.order,
        ExchangeOrder {
            input_account: [4u8; 32],
            output_account: [3u8; 32],
            input_mint: [5u8; 32],
            output_mint: [6u8; 32],
            amount_in: 10_000_000_000,
            minimum_amount_out: 42,
        }
    );
}

#[test]
fn screen_stages_the_consumed_nonce() {
    let mut ctx = context();
    ctx.vault.nonce = 8;
    let pending = screen(&ctx, &request(77, false, 8), true, BONDED + 300).unwrap();
    let mut staged = ctx;
    staged.vault.nonce = 9;
    assert_eq!(
        pending,
        PendingSwap {
            order: pending.order,
            staged,
            amount_in: 77,
            is_buy: false,
            timestamp: BONDED + 300,
        }
    );
    assert_eq!(ctx.vault.nonce, 8);
}

#[test]
fn settle_commits_the_accounting_and_announces() {
    let mut ctx = context();
    ctx.global_state.swap_count = 4;
    ctx.global_state.total_swapped = 1_000;
    ctx.vault.nonce = 8;
    let now = BONDED + 1_000;
    let pending = screen(&ctx, &request(10_000_000_000, true, 8), true, now).unwrap();
    let (next, event) = settle(pending, Ok(())).unwrap();
    let mut expected = ctx;
    expected.global_state.swap_count = 5;
    expected.global_state.total_swapped = 10_000_001_000;
    expected.vault.nonce = 9;
    expected.user_state.last_swap = now;
    assert_eq!(next, expected);
    assert_eq!(
        event,
        DarkSwap {
            authority: [2u8; 32],
            amount_in: 10_000_000_000,
            is_buy: true,
            classification: "Whale".to_string(),
            timestamp: now,
        }
    );
}

#[test]
fn settle_classifies_the_amount_before_the_fee() {
    let ctx = context();
    let pending = screen(&ctx, &request(1_000_000_000, true, 0), true, BONDED + 120).unwrap();
    assert_eq!(pending.order.amount_in, 975_000_000);
    let (_, event) = settle(pending, Ok(())).unwrap();
    assert_eq!(event.classification, "Shark");
    assert_eq!(event.amount_in, 1_000_000_000);
}

#[test]
fn refused_order_fails_the_swap() {
    let ctx = context();
    let pending = screen(&ctx, &request(10, true, 0), true, BONDED + 120).unwrap();
    assert_eq!(settle(pending, Err(ExchangeError {})), Err(ErrorCode::DelegateExecutionFailed));
}

#[test]
fn failed_exchange_leaves_nonce_and_accumulators_unchanged() {
    let mut ctx = context();
    ctx.global_state.swap_count = 4;
    ctx.global_state.total_swapped = 1_000;
    ctx.vault.nonce = 8;
    let before = ctx;
    let pending = screen(&ctx, &request(10, true, 8), true, BONDED + 120).unwrap();
    match settle(pending, Err(ExchangeError {})) {
        Ok((next, _)) => ctx = next,
        Err(e) => assert_eq!(e, ErrorCode::DelegateExecutionFailed),
    }
    assert_eq!(ctx, before);
    assert_eq!(ctx.vault.nonce, 8);
    assert_eq!(ctx.global_state.swap_count, 4);
    assert_eq!(ctx.global_state.total_swapped, 1_000);
}

#[test]
fn accumulator_overflow_fails_the_swap() {
    let mut ctx = context();
    ctx.global_state.swap_count = 1;
    ctx.global_state.total_swapped = u64::MAX;
    let pending = screen(&ctx, &request(1, false, 0), true, BONDED).unwrap();
    assert_eq!(settle(pending, Ok(())), Err(ErrorCode::MathOverflow));
    ctx.global_state.total_swapped = u64::MAX - 1;
    let pending = screen(&ctx, &request(1, false, 0), true, BONDED).unwrap();
    let (next, _) = settle(pending, Ok(())).unwrap();
    assert_eq!(next.global_state.total_swapped, u64::MAX);
}

#[test]
fn refusal_comes_before_overflow() {
    let mut ctx = context();
    ctx.global_state.swap_count = 1;
    ctx.global_state.total_swapped = u64::MAX;
    let pending = screen(&ctx, &request(1, false, 0), true, BONDED).unwrap();
    assert_eq!(settle(pending, Err(ExchangeError {})), Err(ErrorCode::DelegateExecutionFailed));
}

#[test]
fn successive_swaps_consume_successive_nonces() {
    let mut ctx = context();
    let mut total: u64 = 0;
    for n in 0..12u64 {
        let now = BONDED + 120 + n as i64;
        assert_eq!(ctx.vault.nonce, n);
        let pending = screen(&ctx, &request(100 + n, n % 2 == 0, n), true, now).unwrap();
        let (next, event) = settle(pending, Ok(())).unwrap();
        ctx = next;
        total += 100 + n;
        assert_eq!(event.timestamp, now);
        assert_eq!(ctx.global_state.swap_count, n + 1);
        assert_eq!(ctx.global_state.total_swapped, total);
        assert_eq!(ctx.user_state.last_swap, now);
    }
    assert_eq!(ctx.vault.nonce, 12);
    for n in 0..12u64 {
        assert_eq!(
            screen(&ctx, &request(100, true, n), true, BONDED + 1_000),
            Err(ErrorCode::StaleOrFutureNonce)
        );
    }
}

#[test]
fn unauthorized_swap_changes_nothing_and_calls_no_exchange() {
    let mut ctx = context();
    ctx.vault.nonce = 3;
    let before = ctx;
    let mut exchange = Recorder { orders: Vec::new(), refuse: false };
    let res = swap(&mut ctx, &mut exchange, 10, true, 1, [0u8; 96], [0u8; 48], 3, BONDED + 500);
    assert_eq!(res, Err(ErrorCode::InvalidAuthorization));
    assert_eq!(ctx, before);
    assert!(exchange.orders.is_empty());
}

#[test]
fn authorize_refuses_a_malformed_authorization() {
    let ctx = context();
    let res = authorize(&ctx, &request(10, true, 0), BONDED + 500);
    assert_eq!(res, Err(ErrorCode::InvalidAuthorization));
    let mut garbled = request(10, true, 0);
    garbled.signature = [0xffu8; 96];
    garbled.public_key = [0xffu8; 48];
    assert_eq!(authorize(&ctx, &garbled, BONDED + 500), Err(ErrorCode::InvalidAuthorization));
}

#[test]
fn exchange_is_handed_the_pending_order() {
    let ctx = context();
    let pending = screen(&ctx, &request(10_000_000_000, true, 0), true, BONDED + 120).unwrap();
    let mut exchange = Recorder { orders: Vec::new(), refuse: true };
    let answer = exchange.swap_base_input(&pending.order);
    assert_eq!(exchange.orders, vec![pending.order]);
    assert_eq!(settle(pending, answer), Err(ErrorCode::DelegateExecutionFailed));
}
