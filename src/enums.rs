//! Enums whose variants carry no value, one value, several positional values
//! or named values, and exhaustive matches over them and over `Option`.
use vstd::prelude::*;

verus! {

/// The two versions of IP address.
#[derive(Debug, Clone, Copy, PartialEq, Eq, Structural)]
pub enum IpAddrKind {
    V4,
    V6,
}

/// An address kept beside its kind.
#[derive(Debug)]
pub struct IpAddr {
    pub kind: IpAddrKind,
    pub address: String,
}

/// An address whose kind is its variant, each holding the text.
#[derive(Debug)]
pub enum IpAddr1 {
    V4(String),
    V6(String),
}

/// An address whose variants hold different shapes: four octets, or text.
#[derive(Debug)]
pub enum IpAddr2 {
    V4(u8, u8, u8, u8),
    V6(String),
}

/// A message with every shape of variant: none, named fields, one value and
/// several positional values.
#[derive(Debug)]
pub enum Message {
    Quit,
    Move { x: i32, y: i32 },
    Write(String),
    ChangeColor(i32, i32, i32),
}

impl Message {
    /// A method on a message; it acts on nothing and changes nothing.
    pub fn call(&self) {
    }
}

/// A US coin.
#[derive(Debug, Clone, Copy, PartialEq, Eq, Structural)]
pub enum Coin {
    Penny,
    Nickel,
    Dime,
    Quarter,
}

/// What a coin is worth in cents.
pub open spec fn cents(coin: Coin) -> u8 {
    match coin {
        Coin::Penny => 1,
        Coin::Nickel => 5,
        Coin::Dime => 10,
        Coin::Quarter => 25,
    }
}

/// What `coin` is worth in cents.
pub fn value_in_cents(coin: Coin) -> (r: u8)
    ensures
        r == cents(coin),
{
    match coin {
        Coin::Penny => 1,
        Coin::Nickel => 5,
        Coin::Dime => 10,
        Coin::Quarter => 25,
    }
}

/// One more than the value held, if any; absent stays absent.
pub fn plus_one(x: Option<i32>) -> (r: Option<i32>)
    requires
        x matches Some(i) ==> i < i32::MAX,
    ensures
        r == (match x {
            None => None,
            Some(i) => Some((i + 1) as i32),
        }),
{
    match x {
        None => None,
        Some(i) => Some(i + 1),
    }
}

} // verus!
