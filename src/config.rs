use vstd::prelude::*;

use crate::decimal::{decimal_value, is_u64_decimal, parse_u64_decimal};

verus! {

/// Why a `DEVICE:TIMEOUT` argument was refused.
#[derive(Debug, Clone, Copy, PartialEq, Eq, Structural)]
pub enum DeviceArgError {
    /// No `:` separates the device name from the timeout.
    MissingSeparator,
    /// The device name is not of the form `sd[a-z]`.
    BadName,
    /// The timeout is zero.
    ZeroTimeout,
    /// The timeout is not a number.
    BadTimeout,
}

impl DeviceArgError {
    /// The message shown to the operator.
    pub fn message(&self) -> &'static str {
        match self {
            DeviceArgError::MissingSeparator => "invalid amount of elements",
            DeviceArgError::BadName => "device name must have format `sd[a-z]`",
            DeviceArgError::ZeroTimeout => "device timeout must be greater than 0",
            DeviceArgError::BadTimeout => "device timeout must be a number",
        }
    }
}

/// The first index at or after `i` that holds `:`, or the length.
pub open spec fn colon_from(s: Seq<u8>, i: nat) -> nat
    decreases s.len() - i,
{
    if i < s.len() && s[i as int] != 0x3a {
        colon_from(s, i + 1)
    } else {
        i
    }
}

/// A device name accepted for monitoring: it starts with `sd` and ends with a
/// lower-case ASCII letter.
pub open spec fn is_device_name(n: Seq<u8>) -> bool {
    &&& n.len() >= 2
    &&& n[0] == 0x73
    &&& n[1] == 0x64
    &&& 0x61 <= n.last() <= 0x7a
}

/// The digits of an unsigned number, after an optional leading `+`.
pub open spec fn unsigned_digits(t: Seq<u8>) -> Seq<u8> {
    if t.len() > 1 && t[0] == 0x2b {
        t.drop_first()
    } else {
        t
    }
}

/// The reading of a `DEVICE:TIMEOUT` argument: the length of the device name
/// (the text before the first `:`) and the timeout in seconds (the text after).
pub open spec fn device_arg(s: Seq<u8>) -> Result<(usize, u64), DeviceArgError> {
    let c = colon_from(s, 0);
    let digits = unsigned_digits(s.subrange((c + 1) as int, s.len() as int));
    if c == s.len() {
        Err(DeviceArgError::MissingSeparator)
    } else if !is_device_name(s.subrange(0, c as int)) {
        Err(DeviceArgError::BadName)
    } else if !is_u64_decimal(digits) {
        Err(DeviceArgError::BadTimeout)
    } else if decimal_value(digits) == 0 {
        Err(DeviceArgError::ZeroTimeout)
    } else {
        Ok((c as usize, decimal_value(digits) as u64))
    }
}

/// Reads a `DEVICE:TIMEOUT` argument such as `sda:3600`. On success the
/// device name is `arg[..n]` for the returned `n`.
pub fn parse_device_arg(arg: &[u8]) -> (r: Result<(usize, u64), DeviceArgError>)
    ensures
        r == device_arg(arg@),
{
    let mut c: usize = 0;
    while c < arg.len() && arg[c] != 0x3a
        invariant
            c <= arg@.len(),
            colon_from(arg@, 0) == colon_from(arg@, c as nat),
        decreases arg@.len() - c,
    {
        c = c + 1;
    }
    if c == arg.len() {
        return Err(DeviceArgError::MissingSeparator);
    }
    let ghost name = arg@.subrange(0, c as int);
    assert(c >= 2 ==> name[0] == arg@[0] && name[1] == arg@[1] && name.last() == arg@[c - 1]);
    if !(c >= 2 && arg[0] == 0x73 && arg[1] == 0x64 && 0x61 <= arg[c - 1] && arg[c - 1] <= 0x7a) {
        return Err(DeviceArgError::BadName);
    }
    let mut start = c + 1;
    if arg.len() - start > 1 && arg[start] == 0x2b {
        start = start + 1;
    }
    proof {
        let t = arg@.subrange(c + 1, arg@.len() as int);
        assert(unsigned_digits(t) =~= arg@.subrange(start as int, arg@.len() as int));
    }
    match parse_u64_decimal(arg, start, arg.len()) {
        None => Err(DeviceArgError::BadTimeout),
        Some(0) => Err(DeviceArgError::ZeroTimeout),
        Some(t) => Ok((c, t)),
    }
}

} // verus!
