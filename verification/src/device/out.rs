//! A write-only output port that turns bytes into text.

use vstd::prelude::*;
use crate::device::{DeviceResult, IOMappedDevice};

verus! {

/// What the port expects next.
#[derive(Debug, Clone, Copy, PartialEq, Eq, Structural)]
pub enum OutMode {
    /// A byte that chooses how the byte after it is shown: zero for a number,
    /// anything else for a character.
    WaitingForMode,
    /// A byte to show as a number.
    Int,
    /// A byte to show as a character.
    Char,
}

/// The lower-case hexadecimal digit for `n`, which is below sixteen.
pub open spec fn hex_digit(n: u8) -> char {
    if n < 10 {
        (48 + n) as char
    } else {
        (87 + n) as char
    }
}

/// The text for a byte shown as a number: `0x`, two hexadecimal digits and a
/// line end.
pub open spec fn int_text(data: u8) -> Seq<char> {
    seq!['0', 'x', hex_digit(data / 16), hex_digit(data % 16), '\n']
}

/// The text that a write of `data` adds in mode `mode`.
pub open spec fn written_text(mode: OutMode, data: u8) -> Seq<char> {
    match mode {
        OutMode::WaitingForMode => Seq::<char>::empty(),
        OutMode::Int => int_text(data),
        OutMode::Char => seq![data as char],
    }
}

/// The mode after a write of `data` in mode `mode`.
pub open spec fn next_mode(mode: OutMode, data: u8) -> OutMode {
    match mode {
        OutMode::WaitingForMode => if data == 0 {
            OutMode::Int
        } else {
            OutMode::Char
        },
        _ => OutMode::WaitingForMode,
    }
}

/// An output port. Bytes come in pairs: the first chooses the form, the second
/// is shown. The text waits in the port until it is taken.
pub struct Out {
    address: u8,
    mode: OutMode,
    pending: Vec<char>,
}

impl Out {
    /// What the port expects next.
    pub closed spec fn mode(&self) -> OutMode {
        self.mode
    }

    /// The text that waits to be taken.
    pub closed spec fn pending(&self) -> Seq<char> {
        self.pending@
    }

    /// An output port at `address` that waits for a mode byte.
    pub fn new(address: u8) -> (out: Self)
        ensures
            out.port() == address,
            out.mode() == OutMode::WaitingForMode,
            out.pending() == Seq::<char>::empty(),
    {
        Out { address, mode: OutMode::WaitingForMode, pending: Vec::new() }
    }

    /// Hands out the text written so far and leaves none behind.
    pub fn take_output(&mut self) -> (text: Vec<char>)
        ensures
            text@ == old(self).pending(),
            final(self).pending() == Seq::<char>::empty(),
            final(self).mode() == old(self).mode(),
            final(self).port() == old(self).port(),
    {
        let mut text = Vec::new();
        std::mem::swap(&mut self.pending, &mut text);
        text
    }

    fn digit(n: u8) -> (c: char)
        requires
            n < 16,
        ensures
            c == hex_digit(n),
    {
        if n < 10 {
            (48 + n) as char
        } else {
            (87 + n) as char
        }
    }
}

impl IOMappedDevice for Out {
    closed spec fn port(&self) -> u8 {
        self.address
    }

    open spec fn io_read_result(&self) -> DeviceResult {
        DeviceResult::WriteOnly
    }

    open spec fn io_write_result(&self, data: u8) -> DeviceResult {
        DeviceResult::Done
    }

    /// The port that the device was made for.
    fn io_address(&self) -> (a: u8) {
        self.address
    }

    /// A read leaves the text and the mode as they are.
    open spec fn io_read_leaves(&self, after: &Self) -> bool {
        &&& after.pending() == self.pending()
        &&& after.mode() == self.mode()
    }

    /// A write adds the text that the byte stands for in the present mode,
    /// and moves to the next mode.
    open spec fn io_write_leaves(&self, after: &Self, data: u8) -> bool {
        &&& after.pending() == self.pending() + written_text(self.mode(), data)
        &&& after.mode() == next_mode(self.mode(), data)
    }

    /// Refuses the read and stays as it is.
    fn io_read(&mut self) -> (res: DeviceResult)
    {
        DeviceResult::WriteOnly
    }

    /// Takes a mode byte, or shows a byte in the mode chosen before it.
    fn io_write(&mut self, data: u8) -> (res: DeviceResult)
    {
        match self.mode {
            OutMode::WaitingForMode => {
                if data == 0 {
                    self.mode = OutMode::Int;
                } else {
                    self.mode = OutMode::Char;
                }
            },
            OutMode::Int => {
                self.pending.push('0');
                self.pending.push('x');
                self.pending.push(Self::digit(data / 16));
                self.pending.push(Self::digit(data % 16));
                self.pending.push('\n');
                self.mode = OutMode::WaitingForMode;
                assert(self.pending@ =~= old(self).pending() + int_text(data));
            },
            OutMode::Char => {
                self.pending.push(data as char);
                self.mode = OutMode::WaitingForMode;
                assert(self.pending@ =~= old(self).pending() + seq![data as char]);
            },
        }
        DeviceResult::Done
    }

    /// The name of the port: `Out`.
    fn io_name(&self) -> (name: &str)
        ensures
            name@ == "Out"@,
    {
        "Out"
    }
}

} // verus!
