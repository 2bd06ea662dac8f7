//! The gateway's persistent records, the replay guard on a vault's nonce
//! and the cooldown gate on the first trade.

use vstd::prelude::*;

verus! {

/// Seconds that must have passed since bonding before the first trade.
pub const COOLDOWN_SECONDS: i64 = 120;

/// Why a swap was refused.
#[derive(Clone, Copy, Debug, PartialEq, Eq, Structural)]
pub enum ErrorCode {
    /// The signature or the public key does not decode, or the signature
    /// does not match the request.
    InvalidAuthorization,
    /// The presented nonce is not the vault's current nonce.
    StaleOrFutureNonce,
    /// The first trade came before the cooldown had elapsed.
    CooldownActive,
    /// A counter or an accumulator would leave the range of `u64`.
    MathOverflow,
    /// The exchange rejected the trade.
    DelegateExecutionFailed,
}

/// The accounting record of one deployment.
#[derive(Clone, Copy, Debug, PartialEq, Eq, Structural)]
pub struct GlobalState {
    /// Number of swaps completed.
    pub swap_count: u64,
    /// Sum of the amounts of all completed swaps.
    pub total_swapped: u64,
    /// When the traded entity became tradable, in seconds.
    pub bond_timestamp: i64,
}

/// The replay counter of one tradable entity.
#[derive(Clone, Copy, Debug, PartialEq, Eq, Structural)]
pub struct Vault {
    /// The nonce that the next request must present.
    pub nonce: u64,
}

/// The record of one trading identity.
#[derive(Clone, Copy, Debug, PartialEq, Eq, Structural)]
pub struct UserState {
    /// When this identity last completed a swap, in seconds.
    pub last_swap: i64,
}

impl Vault {
    /// What the replay guard decides on `presented`: the vault with its
    /// nonce advanced by one where `presented` is the current nonce, an
    /// error otherwise.
    pub open spec fn advanced(self, presented: u64) -> Result<Vault, ErrorCode> {
        if presented != self.nonce {
            Err(ErrorCode::StaleOrFutureNonce)
        } else if self.nonce == u64::MAX {
            Err(ErrorCode::MathOverflow)
        } else {
            Ok(Vault { nonce: (self.nonce + 1) as u64 })
        }
    }

    /// Accepts `presented_nonce` only if it equals the current nonce, and
    /// then advances the nonce by one. A refusal leaves the vault as it was.
    pub fn check_and_advance(&mut self, presented_nonce: u64) -> (res: Result<(), ErrorCode>)
        ensures
            match old(self).advanced(presented_nonce) {
                Ok(next) => res is Ok && *final(self) == next,
                Err(e) => res == Err::<(), ErrorCode>(e) && *final(self) == *old(self),
            },
            res is Ok ==> presented_nonce == old(self).nonce,
            res is Ok ==> final(self).nonce == old(self).nonce + 1,
    {
        if presented_nonce != self.nonce {
            return Err(ErrorCode::StaleOrFutureNonce);
        }
        match self.nonce.checked_add(1) {
            Some(next) => {
                self.nonce = next;
                Ok(())
            },
            None => Err(ErrorCode::MathOverflow),
        }
    }
}

/// The vault after the replay guard has accepted each nonce of `presented`
/// in turn; `None` if it refuses one of them.
pub open spec fn after_accepting(vault: Vault, presented: Seq<u64>) -> Option<Vault>
    decreases presented.len(),
{
    if presented.len() == 0 {
        Some(vault)
    } else {
        match after_accepting(vault, presented.drop_last()) {
            Some(before) => match before.advanced(presented.last()) {
                Ok(next) => Some(next),
                Err(_) => None,
            },
            None => None,
        }
    }
}

/// Nonces are consumed in order and once: if the replay guard accepts a
/// sequence of requests against a vault, the nonces presented are the
/// vault's first nonce and its successors, one by one, the vault ends that
/// many steps further, and presenting any of them again is refused as
/// stale.
pub proof fn lemma_nonce_monotonic(vault: Vault, presented: Seq<u64>)
    requires
        after_accepting(vault, presented) is Some,
    ensures
        forall|i: int| 0 <= i < presented.len() ==> #[trigger] presented[i] == vault.nonce + i,
        after_accepting(vault, presented).unwrap().nonce == vault.nonce + presented.len(),
        forall|i: int|
            0 <= i < presented.len() ==> after_accepting(vault, presented).unwrap().advanced(
                #[trigger] presented[i],
            ) == Err::<Vault, ErrorCode>(ErrorCode::StaleOrFutureNonce),
    decreases presented.len(),
{
    if presented.len() > 0 {
        let earlier = presented.drop_last();
        lemma_nonce_monotonic(vault, earlier);
        assert forall|i: int| 0 <= i < presented.len() implies #[trigger] presented[i]
            == vault.nonce + i by {
            if i < earlier.len() {
                assert(presented[i] == earlier[i]);
            }
        }
    }
}

impl GlobalState {
    /// Whether the cooldown gate lets a trade through at `now`: every trade
    /// but the first, and the first once the cooldown has elapsed.
    pub open spec fn cooldown_elapsed(self, now: i64) -> bool {
        self.swap_count != 0 || now - self.bond_timestamp >= COOLDOWN_SECONDS
    }

    /// The record after a swap of `amount_in` has been completed; an
    /// overflow of the counter or of the accumulator is an error.
    pub open spec fn recorded(self, amount_in: u64) -> Result<GlobalState, ErrorCode> {
        if self.swap_count + 1 > u64::MAX || self.total_swapped + amount_in > u64::MAX {
            Err(ErrorCode::MathOverflow)
        } else {
            Ok(
                GlobalState {
                    swap_count: (self.swap_count + 1) as u64,
                    total_swapped: (self.total_swapped + amount_in) as u64,
                    bond_timestamp: self.bond_timestamp,
                },
            )
        }
    }

    /// Refuses the first trade while fewer than `COOLDOWN_SECONDS` have
    /// passed since bonding. Later trades are never refused.
    pub fn check_cooldown(&self, current_time: i64) -> (res: Result<(), ErrorCode>)
        ensures
            res is Ok <==> self.cooldown_elapsed(current_time),
            res is Err ==> res == Err::<(), ErrorCode>(ErrorCode::CooldownActive),
    {
        if self.swap_count == 0 {
            let elapsed: i128 = current_time as i128 - self.bond_timestamp as i128;
            if elapsed < COOLDOWN_SECONDS as i128 {
                return Err(ErrorCode::CooldownActive);
            }
        }
        Ok(())
    }

    /// Counts one more swap and adds `amount_in` to the total. On overflow
    /// the record is left as it was.
    pub fn record_swap(&mut self, amount_in: u64) -> (res: Result<(), ErrorCode>)
        ensures
            match old(self).recorded(amount_in) {
                Ok(next) => res is Ok && *final(self) == next,
                Err(e) => res == Err::<(), ErrorCode>(e) && *final(self) == *old(self),
            },
            old(self).total_swapped + amount_in > u64::MAX ==> res == Err::<(), ErrorCode>(
                ErrorCode::MathOverflow,
            ),
            res is Ok ==> final(self).total_swapped >= old(self).total_swapped,
    {
        let count = match self.swap_count.checked_add(1) {
            Some(count) => count,
            None => {
                return Err(ErrorCode::MathOverflow);
            },
        };
        let total = match self.total_swapped.checked_add(amount_in) {
            Some(total) => total,
            None => {
                return Err(ErrorCode::MathOverflow);
            },
        };
        self.swap_count = count;
        self.total_swapped = total;
        Ok(())
    }
}

/// The cooldown is inclusive at its boundary and binds the first trade
/// only: one second early the first trade is refused, at the boundary it
/// passes, and after a first swap no time is refused.
pub proof fn lemma_cooldown_boundary(state: GlobalState, now: i64)
    ensures
        state.swap_count == 0 && now == state.bond_timestamp + COOLDOWN_SECONDS - 1
            ==> !state.cooldown_elapsed(now),
        state.swap_count == 0 && now == state.bond_timestamp + COOLDOWN_SECONDS
            ==> state.cooldown_elapsed(now),
        state.swap_count > 0 ==> state.cooldown_elapsed(now),
{
}

} // verus!
