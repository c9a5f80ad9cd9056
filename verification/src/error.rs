//! The errors of the tool.
use vstd::prelude::*;

verus! {

/// Why parsing an integer failed (the same causes that std reports).
#[derive(Debug, Clone, Copy, PartialEq, Eq, Structural)]
pub enum IntErrorKind {
    /// The text was empty.
    Empty,
    /// The text held a character that is not a digit of the radix.
    InvalidDigit,
    /// The value does not fit the integer type.
    PosOverflow,
}

/// Errors of the tool.
#[derive(Debug, Clone, Copy, PartialEq, Eq, Structural)]
pub enum Error {
    Device,
    DeviceNotFound,
    Compatible,
    FeatureMissing,
    TypecController,
    InvalidArgument,
    ReconnectTimeout,
    ControllerTimeout,
    I2C,
    Spmi,
    /// The bytes are not UTF-8: the longest valid prefix has `valid_up_to`
    /// bytes; `error_len` is the length of the invalid sequence after it, or
    /// `None` where the input ended inside a character.
    Utf8 { valid_up_to: usize, error_len: Option<usize> },
    Parse(IntErrorKind),
}

} // verus!
