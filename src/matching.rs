//! Choosing by the shape of a value.
use vstd::prelude::*;

verus! {

/// A United States coin.
pub enum Coin {
    Penny,
    Nickel,
    Dime,
    Quarter,
}

/// What `coin` is worth, in cents.
pub open spec fn cents(coin: Coin) -> u8 {
    match coin {
        Coin::Penny => 1,
        Coin::Nickel => 5,
        Coin::Dime => 10,
        Coin::Quarter => 25,
    }
}

/// What `coin` is worth, in cents.
pub fn value_in_cents(coin: Coin) -> (r: u8)
    ensures
        r == cents(coin),
{
    match coin {
        Coin::Penny => 1,
        Coin::Nickel => 5,
        Coin::Dime => 10,
        Coin::Quarter => 25,
    }
}

/// One more than the value held, if any; nothing for nothing.
pub fn plus_one(x: Option<i8>) -> (r: Option<i8>)
    requires
        x matches Some(i) ==> i < i8::MAX,
    ensures
        match x {
            Some(i) => r == Some((i + 1) as i8),
            None => r is None,
        },
{
    match x {
        Some(i) => Some(i + 1),
        _ => None,
    }
}

} // verus!
