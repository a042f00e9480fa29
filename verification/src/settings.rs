//! The settings of a serial line.
use vstd::prelude::*;

verus! {

/// Number of bits per character.
#[derive(Clone, Copy, Debug, PartialEq, Eq, Structural)]
pub enum DataBits {
    /// 5 bits per character.
    Five,
    /// 6 bits per character.
    Six,
    /// 7 bits per character.
    Seven,
    /// 8 bits per character.
    Eight,
}

/// Parity checking modes.
#[derive(Clone, Copy, Debug, PartialEq, Eq, Structural)]
pub enum Parity {
    /// No parity bit.
    Disabled,
    /// Parity bit sets odd number of 1 bits.
    Odd,
    /// Parity bit sets even number of 1 bits.
    Even,
}

/// Number of stop bits.
#[derive(Clone, Copy, Debug, PartialEq, Eq, Structural)]
pub enum StopBits {
    /// One stop bit.
    One,
    /// Two stop bits.
    Two,
}

/// Flow control modes.
#[derive(Clone, Copy, Debug, PartialEq, Eq, Structural)]
pub enum FlowControl {
    /// No flow control.
    Disabled,
    /// Flow control using XON/XOFF bytes.
    Software,
    /// Flow control using RTS/CTS signals.
    Hardware,
}

/// The buffers of a serial driver that can be cleared.
#[derive(Clone, Copy, Debug, PartialEq, Eq, Structural)]
pub enum ClearBuffer {
    /// Data received but not read.
    Input,
    /// Data written but not transmitted.
    Output,
    /// Both.
    All,
}

} // verus!
