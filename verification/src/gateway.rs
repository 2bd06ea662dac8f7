//! The swap itself: authorization, replay guard and cooldown, then the
//! exchange, then bookkeeping. A swap that fails at any step changes
//! nothing.

use crate::bls::{bls_accepts, verify_bls_sig};
use crate::encoding::{canonical_message, message_bytes};
use crate::fee::{class_of, classify, net_amount, net_of};
use crate::state::{ErrorCode, GlobalState, UserState, Vault};
use vstd::prelude::*;

verus! {

/// A request to swap, with the authorization that covers it.
#[derive(Clone, Copy, Debug, PartialEq, Eq)]
pub struct AuthorizationRequest {
    /// The amount offered, before the fee.
    pub amount_in: u64,
    /// Whether the request buys the token (and sells it otherwise).
    pub is_buy: bool,
    /// The least amount that the exchange must hand out.
    pub minimum_amount_out: u64,
    /// The nonce that the authorization was issued for.
    pub nonce: u64,
    /// The signature: a compressed point of G2.
    pub signature: [u8; 96],
    /// The signer's public key: a compressed point of G1.
    pub public_key: [u8; 48],
}

/// The parties and records that one swap touches.
#[derive(Clone, Copy, Debug, PartialEq, Eq)]
pub struct SwapContext {
    /// The principal who makes the request.
    pub user: [u8; 32],
    /// The authority under which the swap is announced.
    pub swap_authority: [u8; 32],
    /// The user's account of the base asset.
    pub user_sol: [u8; 32],
    /// The user's account of the token.
    pub user_token: [u8; 32],
    /// The mint that the exchange takes in.
    pub input_mint: [u8; 32],
    /// The mint that the exchange hands out.
    pub output_mint: [u8; 32],
    /// The accounting record.
    pub global_state: GlobalState,
    /// The replay counter.
    pub vault: Vault,
    /// The user's record.
    pub user_state: UserState,
}

/// What the exchange is asked to do.
#[derive(Clone, Copy, Debug, PartialEq, Eq)]
pub struct ExchangeOrder {
    /// The account that pays.
    pub input_account: [u8; 32],
    /// The account that receives.
    pub output_account: [u8; 32],
    /// The mint taken in.
    pub input_mint: [u8; 32],
    /// The mint handed out.
    pub output_mint: [u8; 32],
    /// The amount to exchange, after the fee.
    pub amount_in: u64,
    /// The least amount to hand out.
    pub minimum_amount_out: u64,
}

/// The exchange's refusal of an order.
#[derive(Clone, Copy, Debug, PartialEq, Eq)]
pub struct ExchangeError {}

/// The announcement of a completed swap.
#[derive(Debug, PartialEq, Eq)]
pub struct DarkSwap {
    /// The authority under which the swap ran.
    pub authority: [u8; 32],
    /// The amount offered, before the fee.
    pub amount_in: u64,
    /// Whether the swap bought the token.
    pub is_buy: bool,
    /// The label of the trade's size class.
    pub classification: String,
    /// When the swap ran, in seconds.
    pub timestamp: i64,
}

/// A swap that has passed every check and waits for the exchange.
#[derive(Clone, Copy, Debug, PartialEq, Eq)]
pub struct PendingSwap {
    /// The order to hand to the exchange.
    pub order: ExchangeOrder,
    /// The context with the nonce consumed, not yet committed.
    pub staged: SwapContext,
    /// The amount offered, before the fee.
    pub amount_in: u64,
    /// Whether the swap buys the token.
    pub is_buy: bool,
    /// When the swap runs, in seconds.
    pub timestamp: i64,
}

/// An exchange that executes orders.
pub trait Exchange {
    /// Executes `order`, or refuses it.
    fn swap_base_input(&mut self, order: &ExchangeOrder) -> Result<(), ExchangeError>;
}

impl AuthorizationRequest {
    /// The message that the request's signature must cover when
    /// `principal` makes the request.
    pub open spec fn message(self, principal: [u8; 32]) -> Seq<u8> {
        message_bytes(self.amount_in, self.is_buy, self.minimum_amount_out, self.nonce, principal@)
    }
}

impl SwapContext {
    /// The order that `request` puts to the exchange: a buy pays from the
    /// base account into the token account, a sell the other way round, and
    /// the amount is the one left after the fee.
    pub open spec fn order_for(self, request: AuthorizationRequest) -> ExchangeOrder {
        ExchangeOrder {
            input_account: if request.is_buy {
                self.user_sol
            } else {
                self.user_token
            },
            output_account: if request.is_buy {
                self.user_token
            } else {
                self.user_sol
            },
            input_mint: self.input_mint,
            output_mint: self.output_mint,
            amount_in: net_of(request.amount_in, request.is_buy) as u64,
            minimum_amount_out: request.minimum_amount_out,
        }
    }

    /// The decision on `request` at `now`, before the exchange is called,
    /// given whether its signature was accepted. The checks run in this
    /// order: signature, nonce, cooldown.
    pub open spec fn admission_given(
        self,
        request: AuthorizationRequest,
        accepted: bool,
        now: i64,
    ) -> Result<PendingSwap, ErrorCode> {
        if !accepted {
            Err(ErrorCode::InvalidAuthorization)
        } else {
            match self.vault.advanced(request.nonce) {
                Err(e) => Err(e),
                Ok(vault) => if !self.global_state.cooldown_elapsed(now) {
                    Err(ErrorCode::CooldownActive)
                } else {
                    Ok(
                        PendingSwap {
                            order: self.order_for(request),
                            staged: SwapContext { vault, ..self },
                            amount_in: request.amount_in,
                            is_buy: request.is_buy,
                            timestamp: now,
                        },
                    )
                },
            }
        }
    }

    /// The decision on `request` at `now`, before the exchange is called:
    /// the signature must cover the request's message as made by this
    /// context's user.
    pub open spec fn admission(
        self,
        request: AuthorizationRequest,
        now: i64,
    ) -> Result<PendingSwap, ErrorCode> {
        self.admission_given(
            request,
            bls_accepts(request.signature@, request.public_key@, request.message(self.user)),
            now,
        )
    }
}

impl SwapContext {
    /// The context after a whole swap: the request is screened, the
    /// exchange answers, the accounting is settled. An error stands for a
    /// swap that changed nothing.
    pub open spec fn outcome(
        self,
        request: AuthorizationRequest,
        accepted: bool,
        delegated: bool,
        now: i64,
    ) -> Result<SwapContext, ErrorCode> {
        match self.admission_given(request, accepted, now) {
            Err(e) => Err(e),
            Ok(pending) => pending.settlement(delegated),
        }
    }
}

/// A swap succeeds only when its signature was accepted, it presented the
/// vault's nonce, the cooldown had elapsed and the exchange executed the
/// order. It then advances the nonce by exactly one, counts one swap, adds
/// the amount before the fee to the total, stamps the user's record, and
/// changes nothing else.
pub proof fn lemma_swap_effects(
    ctx: SwapContext,
    request: AuthorizationRequest,
    accepted: bool,
    delegated: bool,
    now: i64,
)
    requires
        ctx.outcome(request, accepted, delegated, now) is Ok,
    ensures
        accepted && delegated,
        request.nonce == ctx.vault.nonce,
        ctx.global_state.cooldown_elapsed(now),
        ({
            let next = ctx.outcome(request, accepted, delegated, now).unwrap();
            &&& next.vault.nonce == ctx.vault.nonce + 1
            &&& next.global_state.swap_count == ctx.global_state.swap_count + 1
            &&& next.global_state.total_swapped == ctx.global_state.total_swapped
                + request.amount_in
            &&& next.global_state.bond_timestamp == ctx.global_state.bond_timestamp
            &&& next.user_state.last_swap == now
            &&& next.user == ctx.user
            &&& next.swap_authority == ctx.swap_authority
            &&& next.user_sol == ctx.user_sol
            &&& next.user_token == ctx.user_token
            &&& next.input_mint == ctx.input_mint
            &&& next.output_mint == ctx.output_mint
        }),
{
}

/// A request cannot be replayed: once a swap has succeeded, the same
/// request is refused as stale however its signature, the exchange and the
/// clock turn out.
pub proof fn lemma_replay_refused(
    ctx: SwapContext,
    request: AuthorizationRequest,
    accepted: bool,
    delegated: bool,
    now: i64,
    later: i64,
)
    requires
        ctx.outcome(request, true, true, now) is Ok,
    ensures
        ctx.outcome(request, true, true, now).unwrap().outcome(request, accepted, delegated, later)
            is Err,
        accepted ==> ctx.outcome(request, true, true, now).unwrap().outcome(
            request,
            accepted,
            delegated,
            later,
        ) == Err::<SwapContext, ErrorCode>(ErrorCode::StaleOrFutureNonce),
{
}

/// The order of failures: a signature that was not accepted is reported
/// first, then a wrong nonce, then an exhausted nonce, then the cooldown,
/// then the exchange's refusal, and an overflow of the accounting last.
pub proof fn lemma_failure_order(
    ctx: SwapContext,
    request: AuthorizationRequest,
    accepted: bool,
    delegated: bool,
    now: i64,
)
    ensures
        ctx.outcome(request, accepted, delegated, now) == (if !accepted {
            Err::<SwapContext, ErrorCode>(ErrorCode::InvalidAuthorization)
        } else if request.nonce != ctx.vault.nonce {
            Err(ErrorCode::StaleOrFutureNonce)
        } else if ctx.vault.nonce == u64::MAX {
            Err(ErrorCode::MathOverflow)
        } else if !ctx.global_state.cooldown_elapsed(now) {
            Err(ErrorCode::CooldownActive)
        } else if !delegated {
            Err(ErrorCode::DelegateExecutionFailed)
        } else if ctx.global_state.swap_count == u64::MAX || ctx.global_state.total_swapped
            + request.amount_in > u64::MAX {
            Err(ErrorCode::MathOverflow)
        } else {
            ctx.outcome(request, accepted, delegated, now)
        }),
        ctx.outcome(request, accepted, delegated, now) is Ok <==> {
            &&& accepted
            &&& request.nonce == ctx.vault.nonce
            &&& ctx.vault.nonce < u64::MAX
            &&& ctx.global_state.cooldown_elapsed(now)
            &&& delegated
            &&& ctx.global_state.swap_count < u64::MAX
            &&& ctx.global_state.total_swapped + request.amount_in <= u64::MAX
        },
{
}

impl PendingSwap {
    /// The context that is committed once the exchange has answered; an
    /// error if it refused, or if the accounting would overflow.
    pub open spec fn settlement(self, delegated: bool) -> Result<SwapContext, ErrorCode> {
        if !delegated {
            Err(ErrorCode::DelegateExecutionFailed)
        } else {
            match self.staged.global_state.recorded(self.amount_in) {
                Err(e) => Err(e),
                Ok(global_state) => Ok(
                    SwapContext {
                        global_state,
                        user_state: UserState { last_swap: self.timestamp },
                        ..self.staged
                    },
                ),
            }
        }
    }

    /// Whether `event` is the announcement of this swap.
    pub open spec fn announced_by(self, event: DarkSwap) -> bool {
        &&& event.authority == self.staged.swap_authority
        &&& event.amount_in == self.amount_in
        &&& event.is_buy == self.is_buy
        &&& event.classification@ == class_of(self.amount_in).label_text()
        &&& event.timestamp == self.timestamp
    }
}

/// Decides whether `request` may go to the exchange at `now`, and with
/// which order, given whether its signature was accepted: `accepted` is
/// what `verify_bls_sig` said of the request's canonical message. Nothing
/// is changed: the consumed nonce is staged in the result.
pub fn screen(
    ctx: &SwapContext,
    request: &AuthorizationRequest,
    accepted: bool,
    now: i64,
) -> (res: Result<PendingSwap, ErrorCode>)
    ensures
        res == ctx.admission_given(*request, accepted, now),
{
    if !accepted {
        return Err(ErrorCode::InvalidAuthorization);
    }
    let mut staged = *ctx;
    match staged.vault.check_and_advance(request.nonce) {
        Ok(()) => {},
        Err(e) => {
            return Err(e);
        },
    }
    match staged.global_state.check_cooldown(now) {
        Ok(()) => {},
        Err(e) => {
            return Err(e);
        },
    }
    let order = ExchangeOrder {
        input_account: if request.is_buy {
            ctx.user_sol
        } else {
            ctx.user_token
        },
        output_account: if request.is_buy {
            ctx.user_token
        } else {
            ctx.user_sol
        },
        input_mint: ctx.input_mint,
        output_mint: ctx.output_mint,
        amount_in: net_amount(request.amount_in, request.is_buy),
        minimum_amount_out: request.minimum_amount_out,
    };
    Ok(
        PendingSwap {
            order,
            staged,
            amount_in: request.amount_in,
            is_buy: request.is_buy,
            timestamp: now,
        },
    )
}

/// Verifies the signature of `request` over its canonical message, then
/// decides as `screen` does.
pub fn authorize(
    ctx: &SwapContext,
    request: &AuthorizationRequest,
    now: i64,
) -> (res: Result<PendingSwap, ErrorCode>)
    ensures
        res == ctx.admission(*request, now),
{
    let msg = canonical_message(
        request.amount_in,
        request.is_buy,
        request.minimum_amount_out,
        request.nonce,
        &ctx.user,
    );
    let accepted = verify_bls_sig(request.signature, request.public_key, msg.as_slice());
    screen(ctx, request, accepted, now)
}

/// Finishes a pending swap with the exchange's answer: on success the
/// accounting is updated and the swap announced, on refusal nothing is
/// committed.
pub fn settle(
    pending: PendingSwap,
    delegated: Result<(), ExchangeError>,
) -> (res: Result<(SwapContext, DarkSwap), ErrorCode>)
    ensures
        match pending.settlement(delegated is Ok) {
            Ok(next) => {
                &&& res is Ok
                &&& res.unwrap().0 == next
                &&& pending.announced_by(res.unwrap().1)
            },
            Err(e) => res is Err && res.unwrap_err() == e,
        },
{
    if delegated.is_err() {
        return Err(ErrorCode::DelegateExecutionFailed);
    }
    let mut next = pending.staged;
    match next.global_state.record_swap(pending.amount_in) {
        Ok(()) => {},
        Err(e) => {
            return Err(e);
        },
    }
    next.user_state.last_swap = pending.timestamp;
    let event = DarkSwap {
        authority: pending.staged.swap_authority,
        amount_in: pending.amount_in,
        is_buy: pending.is_buy,
        classification: classify(pending.amount_in).label(),
        timestamp: pending.timestamp,
    };
    Ok((next, event))
}

/// The request that the arguments of `swap` make up.
pub open spec fn request_of(
    amount_in: u64,
    is_buy: bool,
    minimum_amount_out: u64,
    bls_sig: [u8; 96],
    bls_pk: [u8; 48],
    nonce: u64,
) -> AuthorizationRequest {
    AuthorizationRequest {
        amount_in,
        is_buy,
        minimum_amount_out,
        nonce,
        signature: bls_sig,
        public_key: bls_pk,
    }
}

/// Runs one swap against `exchange` at `unix_timestamp`.
///
/// A request that fails a check is refused with that check's error and the
/// exchange is not called. Otherwise the exchange decides: if it executes
/// the order, the accounting is committed and the swap announced (or the
/// swap fails with `MathOverflow` where the accounting would overflow); if
/// it refuses, the swap fails with `DelegateExecutionFailed`. Every failure
/// leaves `ctx` as it was.
pub fn swap<E: Exchange>(
    ctx: &mut SwapContext,
    exchange: &mut E,
    amount_in: u64,
    is_buy: bool,
    minimum_amount_out: u64,
    bls_sig: [u8; 96],
    bls_pk: [u8; 48],
    nonce: u64,
    unix_timestamp: i64,
) -> (res: Result<DarkSwap, ErrorCode>)
    ensures
        res is Err ==> *final(ctx) == *old(ctx),
        match old(ctx).admission(
            request_of(amount_in, is_buy, minimum_amount_out, bls_sig, bls_pk, nonce),
            unix_timestamp,
        ) {
            Err(e) => res is Err && res.unwrap_err() == e,
            Ok(pending) => match pending.settlement(true) {
                Ok(next) => {
                    ||| res is Ok && *final(ctx) == next && pending.announced_by(res.unwrap())
                    ||| res is Err && res.unwrap_err() == ErrorCode::DelegateExecutionFailed
                },
                Err(e) => {
                    ||| res is Err && res.unwrap_err() == e
                    ||| res is Err && res.unwrap_err() == ErrorCode::DelegateExecutionFailed
                },
            },
        },
{
    let request = AuthorizationRequest {
        amount_in,
        is_buy,
        minimum_amount_out,
        nonce,
        signature: bls_sig,
        public_key: bls_pk,
    };
    let pending = match authorize(ctx, &request, unix_timestamp) {
        Ok(pending) => pending,
        Err(e) => {
            return Err(e);
        },
    };
    let delegated = exchange.swap_base_input(&pending.order);
    match settle(pending, delegated) {
        Ok((next, event)) => {
            *ctx = next;
            Ok(event)
        },
        Err(e) => Err(e),
    }
}

} // verus!
