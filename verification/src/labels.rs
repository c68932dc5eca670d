//! The text of the on-screen labels.

use vstd::prelude::*;
use crate::button::ButtonOutcome;
use crate::stats::{PlayerStats, StatsModel};

verus! {

/// The character that writes a digit.
pub open spec fn digit_char(d: int) -> char {
    if d == 0 {
        '0'
    } else if d == 1 {
        '1'
    } else if d == 2 {
        '2'
    } else if d == 3 {
        '3'
    } else if d == 4 {
        '4'
    } else if d == 5 {
        '5'
    } else if d == 6 {
        '6'
    } else if d == 7 {
        '7'
    } else if d == 8 {
        '8'
    } else {
        '9'
    }
}

/// A number in decimal, without leading zeros.
pub open spec fn decimal(n: int) -> Seq<char>
    decreases n,
{
    if n < 10 {
        seq![digit_char(n)]
    } else {
        decimal(n / 10).push(digit_char(n % 10))
    }
}

/// A number of tenths in decimal: the whole part, then a point and the
/// tenth where the tenth is not zero. 150 reads "15" and 12 reads "1.2".
pub open spec fn tenths_text(tenths: int) -> Seq<char> {
    if tenths % 10 == 0 {
        decimal(tenths / 10)
    } else {
        decimal(tenths / 10).push('.').push(digit_char(tenths % 10))
    }
}

pub open spec fn coins_text(stats: StatsModel) -> Seq<char> {
    "Coins: "@ + decimal(stats.coins)
}

pub open spec fn damage_text(stats: StatsModel) -> Seq<char> {
    "Damage: "@ + tenths_text(stats.damage)
}

pub open spec fn speed_text(stats: StatsModel) -> Seq<char> {
    "Speed: "@ + tenths_text(stats.speed)
}

/// What the status label is told after a button was processed: the verdict
/// on an attempted purchase, and nothing where none was attempted.
pub open spec fn status_text(outcome: ButtonOutcome) -> Option<Seq<char>> {
    match outcome {
        ButtonOutcome::Purchased => Some("Purchase Successful"@),
        ButtonOutcome::Declined => Some("Not enough coins!"@),
        _ => None,
    }
}

/// The status label's text before any purchase was attempted.
pub open spec fn initial_status_text() -> Seq<char> {
    "Hover State: None"@
}

fn digit_str(d: u64) -> (r: &'static str)
    requires
        d < 10,
    ensures
        r@ == seq![digit_char(d as int)],
{
    proof {
        reveal_strlit("0");
        reveal_strlit("1");
        reveal_strlit("2");
        reveal_strlit("3");
        reveal_strlit("4");
        reveal_strlit("5");
        reveal_strlit("6");
        reveal_strlit("7");
        reveal_strlit("8");
        reveal_strlit("9");
    }
    let r = if d == 0 {
        "0"
    } else if d == 1 {
        "1"
    } else if d == 2 {
        "2"
    } else if d == 3 {
        "3"
    } else if d == 4 {
        "4"
    } else if d == 5 {
        "5"
    } else if d == 6 {
        "6"
    } else if d == 7 {
        "7"
    } else if d == 8 {
        "8"
    } else {
        "9"
    };
    assert(r@ =~= seq![digit_char(d as int)]);
    r
}

/// Appends a number in decimal.
pub fn push_decimal(text: &mut String, n: u64)
    ensures
        final(text)@ == old(text)@ + decimal(n as int),
    decreases n,
{
    if n >= 10 {
        push_decimal(text, n / 10);
    }
    text.append(digit_str(n % 10));
    assert(text@ =~= old(text)@ + decimal(n as int));
}

/// Appends a number of tenths in decimal.
pub fn push_tenths(text: &mut String, tenths: u64)
    ensures
        final(text)@ == old(text)@ + tenths_text(tenths as int),
{
    push_decimal(text, tenths / 10);
    if tenths % 10 != 0 {
        proof {
            reveal_strlit(".");
        }
        text.append(".");
        text.append(digit_str(tenths % 10));
    }
    assert(text@ =~= old(text)@ + tenths_text(tenths as int));
}

/// The coins label: "Coins: " and the number of coins.
pub fn coins_label(stats: &PlayerStats) -> (r: String)
    ensures
        r@ == coins_text(stats@),
{
    let mut text = String::from_str("Coins: ");
    push_decimal(&mut text, stats.coins() as u64);
    text
}

/// The damage label: "Damage: " and the damage.
pub fn damage_label(stats: &PlayerStats) -> (r: String)
    ensures
        r@ == damage_text(stats@),
{
    let mut text = String::from_str("Damage: ");
    push_tenths(&mut text, stats.damage_tenths());
    text
}

/// The speed label: "Speed: " and the speed.
pub fn speed_label(stats: &PlayerStats) -> (r: String)
    ensures
        r@ == speed_text(stats@),
{
    let mut text = String::from_str("Speed: ");
    push_tenths(&mut text, stats.speed_tenths());
    text
}

/// The text for the status label after a button was processed, if the
/// label is to change.
pub fn status_label(outcome: ButtonOutcome) -> (r: Option<String>)
    ensures
        r.is_some() == status_text(outcome).is_some(),
        r.is_some() ==> r.unwrap()@ == status_text(outcome).unwrap(),
{
    match outcome {
        ButtonOutcome::Purchased => Some(String::from_str("Purchase Successful")),
        ButtonOutcome::Declined => Some(String::from_str("Not enough coins!")),
        _ => None,
    }
}

/// The status label's text before any purchase was attempted.
pub fn initial_status_label() -> (r: String)
    ensures
        r@ == initial_status_text(),
{
    String::from_str("Hover State: None")
}

} // verus!
