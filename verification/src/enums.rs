//! Enums as sets of alternatives: address kinds, addresses that carry their
//! data, and a message type whose variants hold different shapes of payload.

use vstd::prelude::*;
use vstd::string::StringExecFns;

verus! {

/// The two kinds of IP address, with no data attached.
pub enum IpAddrKind {
    V4,
    V6,
}

/// A kind paired with the address text: the struct way of keeping both.
pub struct IpAddrStruct {
    _kind: IpAddrKind,
    _address: String,
}

/// The same concept as one enum: each variant carries its address text.
pub enum IpAddr {
    V4(String),
    V6(String),
}

/// Each variant may carry its own shape: four octets, or the full text.
pub enum IpAddr2 {
    V4(u8, u8, u8, u8),
    V6(String),
}

/// Variants of four different shapes under a single type.
pub enum Message {
    _Quit,
    _Move { x: i32, y: i32 },
    Write(String),
    _ChangeColor(i32, i32, i32),
}

impl Message {
    /// Methods can hang off an enum just as off a struct.
    fn call(&self) {
    }
}

/// Either kind of address is accepted here.
fn _route(_ip_kind: IpAddrKind) {
}

/// Builds a value of each form in turn: bare kinds, struct-with-kind,
/// data-carrying variants, and a message with a method on it.
pub fn run() {
    let _four = IpAddrKind::V4;
    let _six = IpAddrKind::V6;

    let _home = IpAddrStruct { _kind: IpAddrKind::V4, _address: String::from_str("127.0.0.1") };
    let _loopback = IpAddrStruct { _kind: IpAddrKind::V6, _address: String::from_str("::1") };

    let _home2 = IpAddr::V4(String::from_str("127.0.0.1"));
    let _loopback2 = IpAddr::V6(String::from_str("::1"));

    let _home3 = IpAddr2::V4(127, 0, 0, 1);
    let _loopback3 = IpAddr2::V6(String::from_str("::1"));

    let m = Message::Write(String::from_str("hello"));
    m.call();
}

} // verus!
