use isolate::{classify, net_amount, Classification};

#[test]
fn buy_forwards_the_amount_less_the_fee() {
    assert_eq!(net_amount(10_000_000_000, true), 9_750_000_000);
}

#[test]
fn sell_forwards_the_whole_amount() {
    assert_eq!(net_amount(10_000_000_000, false), 10_000_000_000);
    assert_eq!(net_amount(u64::MAX, false), u64::MAX);
    assert_eq!(net_amount(0, false), 0);
}

#[test]
fn fee_rounds_down() {
    assert_eq!(net_amount(0, true), 0);
    assert_eq!(net_amount(1, true), 0);
    assert_eq!(net_amount(3, true), 2);
    assert_eq!(net_amount(12_345, true), 12_036);
    assert_eq!(net_amount(999_999_999, true), 974_999_999);
}

#[test]
fn fee_of_the_largest_amount_does_not_overflow() {
    assert_eq!(net_amount(u64::MAX, true), 17_985_575_471_866_812_824);
}

#[test]
fn classification_boundaries() {
    assert_eq!(classify(999_999_999), Classification::Crab);
    assert_eq!(classify(1_000_000_000), Classification::Shark);
    assert_eq!(classify(1_000_000_000_000), Classification::Leviathan);
}

#[test]
fn classification_ladder() {
    assert_eq!(classify(0), Classification::Crab);
    assert_eq!(classify(9_999_999_999), Classification::Shark);
    assert_eq!(classify(10_000_000_000), Classification::Whale);
    assert_eq!(classify(99_999_999_999), Classification::Whale);
    assert_eq!(classify(100_000_000_000), Classification::Kraken);
    assert_eq!(classify(999_999_999_999), Classification::Kraken);
    assert_eq!(classify(u64::MAX), Classification::Leviathan);
}

#[test]
fn classification_labels() {
    assert_eq!(Classification::Crab.label(), "Crab");
    assert_eq!(Classification::Shark.label(), "Shark");
    assert_eq!(Classification::Whale.label(), "Whale");
    assert_eq!(Classification::Kraken.label(), "Kraken");
    assert_eq!(Classification::Leviathan.label(), "Leviathan");
    assert_eq!(classify(999_999_999).label(), "Crab");
    assert_eq!(classify(1_000_000_000).label(), "Shark");
    assert_eq!(classify(1_000_000_000_000).label(), "Leviathan");
}
