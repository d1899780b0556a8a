//! Scancodes: the raw byte sequences the keyboard sends, classified into
//! pressed / released / invalid, and the decoding decisions of the polling
//! loop. The port reads themselves happen in the shell, which feeds the
//! bytes to the deciders here.

use vstd::prelude::*;

verus! {

/// One decoded scancode, its bytes kept in big-endian order.
#[derive(Clone, Copy, Debug, PartialEq, Eq, Hash)]
pub enum Scancode {
    Invalid,
    Pressed([u8; 8]),
    Released([u8; 8]),
}

impl Scancode {
    /// The raw bytes, unless the code is invalid.
    pub fn try_unwrap(self) -> (r: Option<[u8; 8]>)
        ensures
            r == (match self {
                Scancode::Invalid => None::<[u8; 8]>,
                Scancode::Pressed(inner) => Some(inner),
                Scancode::Released(inner) => Some(inner),
            }),
    {
        match self {
            Scancode::Invalid => None,
            Scancode::Pressed(inner) => Some(inner),
            Scancode::Released(inner) => Some(inner),
        }
    }

    /// The raw bytes. Unwrapping an invalid code is a programming error.
    pub fn unwrap(self) -> (r: [u8; 8])
        requires
            self is Pressed || self is Released,
        ensures
            self matches Scancode::Pressed(inner) ==> r == inner,
            self matches Scancode::Released(inner) ==> r == inner,
    {
        match self {
            Scancode::Invalid => unreached(),
            Scancode::Pressed(inner) => inner,
            Scancode::Released(inner) => inner,
        }
    }

    pub fn is_valid(&self) -> (r: bool)
        ensures
            r == !(self is Invalid),
    {
        match *self {
            Scancode::Invalid => false,
            _ => true,
        }
    }

    pub fn is_pressed(&self) -> (r: bool)
        ensures
            r == self is Pressed,
    {
        match *self {
            Scancode::Pressed(_) => true,
            _ => false,
        }
    }
}

/// What the polling loop does with the first byte it reads: wait for
/// another byte (zero), switch to the two-byte or six-byte decoders
/// (0xe0 / 0xe1 prefixes), or classify a one-byte code by its release bit.
#[derive(Clone, Copy, Debug, PartialEq, Eq, Hash)]
pub enum PollStep {
    Again,
    Long,
    VeryLong,
    Done(Scancode),
}

/// Classifies the first byte of a scancode.
pub fn poll_first(byte: u8) -> (r: PollStep)
    ensures
        r == (if byte == 0 {
            PollStep::Again
        } else if byte == 0xe0 {
            PollStep::Long
        } else if byte == 0xe1 {
            PollStep::VeryLong
        } else if byte < 0x80 {
            PollStep::Done(Scancode::Pressed([byte, 0, 0, 0, 0, 0, 0, 0]))
        } else {
            PollStep::Done(Scancode::Released([byte, 0, 0, 0, 0, 0, 0, 0]))
        }),
{
    if byte == 0 {
        PollStep::Again
    } else if byte == 0xe0 {
        PollStep::Long
    } else if byte == 0xe1 {
        PollStep::VeryLong
    } else if byte < 0x80 {
        PollStep::Done(Scancode::Pressed([byte, 0, 0, 0, 0, 0, 0, 0]))
    } else {
        PollStep::Done(Scancode::Released([byte, 0, 0, 0, 0, 0, 0, 0]))
    }
}

/// Whether a 0xe0-prefixed code needs two more bytes (the print-screen
/// make and break codes); the poller reads them before deciding.
pub fn long_needs_rest(b1: u8) -> (r: bool)
    ensures
        r == (b1 == 0x2a || b1 == 0xb7),
{
    b1 == 0x2a || b1 == 0xb7
}

/// Decodes a 0xe0-prefixed code, given the byte after the prefix and, for
/// the print-screen codes, the two bytes after that: print-screen must
/// arrive exactly as documented or the code is invalid; anything else is a
/// two-byte code classified by its release bit.
pub fn poll_long(b1: u8, rest: Option<(u8, u8)>) -> (r: Scancode)
    requires
        rest.is_some() == (b1 == 0x2a || b1 == 0xb7),
    ensures
        r == (if b1 == 0x2a {
            if rest.unwrap() == (0xe0u8, 0x37u8) {
                Scancode::Pressed([0xe0, 0x2a, 0xe0, 0x37, 0, 0, 0, 0])
            } else {
                Scancode::Invalid
            }
        } else if b1 == 0xb7 {
            if rest.unwrap() == (0xe0u8, 0xaau8) {
                Scancode::Pressed([0xe0, 0xb7, 0xe0, 0xaa, 0, 0, 0, 0])
            } else {
                Scancode::Invalid
            }
        } else if b1 < 0x80 {
            Scancode::Pressed([0xe0, b1, 0, 0, 0, 0, 0, 0])
        } else {
            Scancode::Released([0xe0, b1, 0, 0, 0, 0, 0, 0])
        }),
{
    if b1 == 0x2a {
        let (r1, r2) = rest.unwrap();
        if r1 == 0xe0 && r2 == 0x37 {
            Scancode::Pressed([0xe0, 0x2a, 0xe0, 0x37, 0, 0, 0, 0])
        } else {
            Scancode::Invalid
        }
    } else if b1 == 0xb7 {
        let (r1, r2) = rest.unwrap();
        if r1 == 0xe0 && r2 == 0xaa {
            Scancode::Pressed([0xe0, 0xb7, 0xe0, 0xaa, 0, 0, 0, 0])
        } else {
            Scancode::Invalid
        }
    } else if b1 < 0x80 {
        Scancode::Pressed([0xe0, b1, 0, 0, 0, 0, 0, 0])
    } else {
        Scancode::Released([0xe0, b1, 0, 0, 0, 0, 0, 0])
    }
}

/// Decodes a 0xe1-prefixed code from the five bytes after the prefix:
/// only the pause sequence is valid.
pub fn poll_very_long(b1: u8, b2: u8, b3: u8, b4: u8, b5: u8) -> (r: Scancode)
    ensures
        r == (if b1 == 0x1d && b2 == 0x45 && b3 == 0xe1 && b4 == 0x9d && b5 == 0xc5 {
            Scancode::Pressed([0xe1, 0x1d, 0x45, 0xe1, 0x9d, 0xc5, 0, 0])
        } else {
            Scancode::Invalid
        }),
{
    if b1 == 0x1d && b2 == 0x45 && b3 == 0xe1 && b4 == 0x9d && b5 == 0xc5 {
        Scancode::Pressed([0xe1, 0x1d, 0x45, 0xe1, 0x9d, 0xc5, 0, 0])
    } else {
        Scancode::Invalid
    }
}

} // verus!
