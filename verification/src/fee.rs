//! The fee withheld on a buy, and the size class of a trade.

use vstd::prelude::*;

verus! {

/// Parts of `FEE_DENOMINATOR` of a buy that are forwarded to the exchange.
pub const FEE_NUMERATOR: u64 = 9750;

/// The denominator of the forwarded share.
pub const FEE_DENOMINATOR: u64 = 10000;

/// Least amount of a shark.
pub const SHARK_THRESHOLD: u64 = 1_000_000_000;

/// Least amount of a whale.
pub const WHALE_THRESHOLD: u64 = 10_000_000_000;

/// Least amount of a kraken.
pub const KRAKEN_THRESHOLD: u64 = 100_000_000_000;

/// Least amount of a leviathan.
pub const LEVIATHAN_THRESHOLD: u64 = 1_000_000_000_000;

/// The size class of a trade.
#[derive(Clone, Copy, Debug, PartialEq, Eq, Structural)]
pub enum Classification {
    Crab,
    Shark,
    Whale,
    Kraken,
    Leviathan,
}

/// The amount forwarded to the exchange: on a buy the amount less the fee,
/// rounded down; on a sell the whole amount.
pub open spec fn net_of(amount_in: u64, is_buy: bool) -> int {
    if is_buy {
        amount_in * FEE_NUMERATOR / FEE_DENOMINATOR as int
    } else {
        amount_in as int
    }
}

/// The class of a trade of `amount_in`: that of the highest threshold
/// which the amount reaches.
pub open spec fn class_of(amount_in: u64) -> Classification {
    if amount_in >= LEVIATHAN_THRESHOLD {
        Classification::Leviathan
    } else if amount_in >= KRAKEN_THRESHOLD {
        Classification::Kraken
    } else if amount_in >= WHALE_THRESHOLD {
        Classification::Whale
    } else if amount_in >= SHARK_THRESHOLD {
        Classification::Shark
    } else {
        Classification::Crab
    }
}

impl Classification {
    /// The text of the class's label.
    pub open spec fn label_text(self) -> Seq<char> {
        match self {
            Classification::Crab => "Crab"@,
            Classification::Shark => "Shark"@,
            Classification::Whale => "Whale"@,
            Classification::Kraken => "Kraken"@,
            Classification::Leviathan => "Leviathan"@,
        }
    }

    /// The class's label.
    pub fn label(&self) -> (text: String)
        ensures
            text@ == self.label_text(),
    {
        match self {
            Classification::Crab => "Crab".to_owned(),
            Classification::Shark => "Shark".to_owned(),
            Classification::Whale => "Whale".to_owned(),
            Classification::Kraken => "Kraken".to_owned(),
            Classification::Leviathan => "Leviathan".to_owned(),
        }
    }
}

/// Computes the amount forwarded to the exchange. The product is taken in
/// 128 bits, so no amount overflows.
pub fn net_amount(amount_in: u64, is_buy: bool) -> (net: u64)
    ensures
        net == net_of(amount_in, is_buy),
        net <= amount_in,
{
    if is_buy {
        assert(amount_in * FEE_NUMERATOR == amount_in * 9750);
        let scaled: u128 = amount_in as u128 * FEE_NUMERATOR as u128;
        let net: u128 = scaled / FEE_DENOMINATOR as u128;
        assert(net == amount_in * 9750 / 10000);
        net as u64
    } else {
        amount_in
    }
}

/// Classifies a trade by its amount before the fee.
pub fn classify(amount_in: u64) -> (class: Classification)
    ensures
        class == class_of(amount_in),
{
    if amount_in >= LEVIATHAN_THRESHOLD {
        Classification::Leviathan
    } else if amount_in >= KRAKEN_THRESHOLD {
        Classification::Kraken
    } else if amount_in >= WHALE_THRESHOLD {
        Classification::Whale
    } else if amount_in >= SHARK_THRESHOLD {
        Classification::Shark
    } else {
        Classification::Crab
    }
}

} // verus!
