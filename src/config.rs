//! Service configuration read from plain values.

use crate::text::{parse_unsigned, unsigned_value};
use vstd::prelude::*;

verus! {

pub const DEFAULT_PORT: u16 = 3000;

/// The listening port chosen by the `PORT` setting: its value when it reads
/// as a `u16`, the default otherwise (also when the setting is absent).
pub open spec fn port_setting(value: Option<Seq<char>>) -> u16 {
    match value {
        Some(s) => match unsigned_value(s, 65535) {
            Some(p) => p as u16,
            None => DEFAULT_PORT,
        },
        None => DEFAULT_PORT,
    }
}

/// The listening port for the value of the `PORT` setting, if any.
pub fn port_from_setting(value: Option<&str>) -> (r: u16)
    ensures
        r == port_setting(
            match value {
                Some(s) => Some(s@),
                None => None,
            },
        ),
{
    match value {
        Some(s) => match parse_unsigned(s, 65535) {
            Some(p) => p as u16,
            None => DEFAULT_PORT,
        },
        None => DEFAULT_PORT,
    }
}

} // verus!
