//! PS/2 keyboard driver state: the command/response protocol words, the
//! retry decision of the send loop, and the key bookkeeping (held keys,
//! input buffer, modifier set). The port traffic itself is the shell's:
//! it writes the command bytes decided here, reads the response byte, and
//! feeds it back.

use vstd::prelude::*;
use crate::keycode::{keycode_index, lemma_keycode_index_bound, modifier_bit, spec_scanset1,
    Keycode, Mod};
use crate::scancode::Scancode;

verus! {

/// How often a command is retried before the keyboard is given up on.
pub const ATTEMPT_COUNT: usize = 3;

/// The scancode set in use; only set 1 is supported.
#[derive(Clone, Copy, Debug, PartialEq, Eq, Hash, Structural)]
pub enum Scanset {
    Set1,
}

impl Default for Scanset {
    /// Set 1 is the default.
    fn default() -> (r: Scanset)
        ensures
            r == Scanset::Set1,
    {
        Scanset::Set1
    }
}

/// The selector byte of a scanset.
pub open spec fn scanset_byte(s: Scanset) -> u8 {
    match s {
        Scanset::Set1 => 1,
    }
}

/// The commands the driver can send. `Resend` is wired to the reset word,
/// as the driver has always done.
#[derive(Clone, Copy, Debug, PartialEq, Eq, Hash, Structural)]
pub enum Command {
    Echo,
    Led(u8),
    GetScanset,
    SetScanset(Scanset),
    Idty,
    Typematic(u8, u16),
    Enable,
    Disable,
    SetDefault,
    AllTypematic,
    AllMakeRel,
    AllMake,
    AllTpmtMakeRel,
    Resend,
    Reset,
}

/// The typematic payload byte: repeat rate in the low five bits, the
/// delay's 250ms step count minus one in the next two.
pub open spec fn typematic_byte(rep: u8, delay: u16) -> u8 {
    (rep & 0x1f) | (((((delay / 250) - 1) as u16 & 0x3) << 5) as u8)
}

/// The wire form of a command: its command byte and its payload byte,
/// where it takes one.
pub open spec fn command_bytes(c: Command) -> (u8, Option<u8>) {
    match c {
        Command::Echo => (0xee, None),
        Command::Led(led) => (0xed, Some(led)),
        Command::GetScanset => (0xf0, Some(0)),
        Command::SetScanset(s) => (0xf0, Some(scanset_byte(s))),
        Command::Idty => (0xf2, None),
        Command::Typematic(rep, delay) => (0xf3, Some(typematic_byte(rep, delay))),
        Command::Enable => (0xf4, None),
        Command::Disable => (0xf5, None),
        Command::SetDefault => (0xf6, None),
        Command::AllTypematic => (0xf7, None),
        Command::AllMakeRel => (0xf8, None),
        Command::AllMake => (0xf9, None),
        Command::AllTpmtMakeRel => (0xfa, None),
        Command::Resend => (0xff, None),
        Command::Reset => (0xff, None),
    }
}

impl Command {
    /// Encodes the command for the wire. A typematic delay under one 250ms
    /// step is a programming error.
    pub fn into_bytes(self) -> (r: (u8, Option<u8>))
        requires
            self matches Command::Typematic(rep, delay) ==> delay >= 250,
        ensures
            r == command_bytes(self),
    {
        match self {
            Command::Echo => (0xee, None),
            Command::Led(led) => (0xed, Some(led)),
            Command::GetScanset => (0xf0, Some(0)),
            Command::SetScanset(s) => (
                0xf0,
                Some(
                    match s {
                        Scanset::Set1 => 1,
                    },
                ),
            ),
            Command::Idty => (0xf2, None),
            Command::Typematic(rep, delay) => {
                proof {
                    assert(((((delay / 250) - 1) as u16 & 0x3) << 5) <= 0x60) by (bit_vector);
                }
                let steps = (delay / 250 - 1) & 0x3;
                (0xf3, Some((rep & 0x1f) | ((steps << 5) as u8)))
            },
            Command::Enable => (0xf4, None),
            Command::Disable => (0xf5, None),
            Command::SetDefault => (0xf6, None),
            Command::AllTypematic => (0xf7, None),
            Command::AllMakeRel => (0xf8, None),
            Command::AllMake => (0xf9, None),
            Command::AllTpmtMakeRel => (0xfa, None),
            Command::Resend => (0xff, None),
            Command::Reset => (0xff, None),
        }
    }
}

/// The response words the keyboard can answer with.
#[derive(Clone, Copy, Debug, PartialEq, Eq, Hash, Structural)]
pub enum Response {
    Ack,
    Resend,
    Echo,
    Err1,
    Err2,
    Pass,
    Fail1,
    Fail2,
}

/// Which response a wire byte names, if any.
pub open spec fn spec_response(byte: u8) -> Option<Response> {
    if byte == 0xfa {
        Some(Response::Ack)
    } else if byte == 0xfe {
        Some(Response::Resend)
    } else if byte == 0xee {
        Some(Response::Echo)
    } else if byte == 0x00 {
        Some(Response::Err1)
    } else if byte == 0xff {
        Some(Response::Err2)
    } else if byte == 0xaa {
        Some(Response::Pass)
    } else if byte == 0xfc {
        Some(Response::Fail1)
    } else if byte == 0xfd {
        Some(Response::Fail2)
    } else {
        None
    }
}

impl Response {
    /// Decodes a response byte.
    pub fn from_byte(byte: u8) -> (r: Option<Response>)
        ensures
            r == spec_response(byte),
    {
        match byte {
            0xfa => Some(Response::Ack),
            0xfe => Some(Response::Resend),
            0xee => Some(Response::Echo),
            0x00 => Some(Response::Err1),
            0xff => Some(Response::Err2),
            0xaa => Some(Response::Pass),
            0xfc => Some(Response::Fail1),
            0xfd => Some(Response::Fail2),
            _ => None,
        }
    }
}

/// What the send loop does after one attempt: take the response and stop,
/// send the command again, or give up (carrying the error response when
/// the keyboard named one).
#[derive(Clone, Copy, Debug, PartialEq, Eq, Hash, Structural)]
pub enum SendOutcome {
    Done(Response),
    Retry,
    Fail(Option<Response>),
}

/// The retry decision of the send loop, given the attempt number (starting
/// at one) and the response byte read back: too many attempts give up;
/// a resend word asks for another attempt; acknowledgments, echoes and
/// self-test passes finish; error and failure words, and bytes that name
/// no response, give up.
pub fn send_step(attempt: usize, byte: u8) -> (r: SendOutcome)
    ensures
        r == (if attempt > ATTEMPT_COUNT {
            SendOutcome::Fail(None)
        } else {
            match spec_response(byte) {
                Some(Response::Ack) => SendOutcome::Done(Response::Ack),
                Some(Response::Resend) => SendOutcome::Retry,
                Some(Response::Echo) => SendOutcome::Done(Response::Echo),
                Some(Response::Err1) => SendOutcome::Fail(Some(Response::Err1)),
                Some(Response::Err2) => SendOutcome::Fail(Some(Response::Err2)),
                Some(Response::Pass) => SendOutcome::Done(Response::Pass),
                Some(Response::Fail1) => SendOutcome::Fail(Some(Response::Fail1)),
                Some(Response::Fail2) => SendOutcome::Fail(Some(Response::Fail2)),
                None => SendOutcome::Fail(None),
            }
        }),
{
    if attempt > ATTEMPT_COUNT {
        return SendOutcome::Fail(None);
    }
    match Response::from_byte(byte) {
        Some(Response::Ack) => SendOutcome::Done(Response::Ack),
        Some(Response::Resend) => SendOutcome::Retry,
        Some(Response::Echo) => SendOutcome::Done(Response::Echo),
        Some(Response::Err1) => SendOutcome::Fail(Some(Response::Err1)),
        Some(Response::Err2) => SendOutcome::Fail(Some(Response::Err2)),
        Some(Response::Pass) => SendOutcome::Done(Response::Pass),
        Some(Response::Fail1) => SendOutcome::Fail(Some(Response::Fail1)),
        Some(Response::Fail2) => SendOutcome::Fail(Some(Response::Fail2)),
        None => SendOutcome::Fail(None),
    }
}

/// The driver's bookkeeping: scanset, LED state, typematic settings, the
/// held-key table, the typed-key buffer, and the modifier set. The port
/// handle lives in the shell.
pub struct Keyboard {
    set: Scanset,
    led: u8,
    repeat: u8,
    delay: u16,
    keys: Vec<bool>,
    input: Vec<Keycode>,
    input_size: usize,
    modifier: Mod,
}

impl Keyboard {
    pub closed spec fn scanset(&self) -> Scanset {
        self.set
    }

    pub closed spec fn led(&self) -> u8 {
        self.led
    }

    pub closed spec fn repeat(&self) -> u8 {
        self.repeat
    }

    pub closed spec fn delay(&self) -> u16 {
        self.delay
    }

    /// Which keys are currently held, by keycode index.
    pub closed spec fn keys(&self) -> Seq<bool> {
        self.keys@
    }

    /// The buffer of typed keys.
    pub closed spec fn buffered(&self) -> Seq<Keycode> {
        self.input@
    }

    /// How much of the buffer is filled.
    pub closed spec fn buffered_len(&self) -> int {
        self.input_size as int
    }

    /// The modifier set.
    pub closed spec fn modifier(&self) -> Mod {
        self.modifier
    }

    pub open spec fn wf(&self) -> bool {
        &&& self.keys().len() == 256
        &&& 0 <= self.buffered_len() <= self.buffered().len()
        &&& self.delay() >= 250
    }

    /// A fresh driver over caller-owned key and buffer storage. The
    /// reset/reinit handshake that brings the hardware in line runs in the
    /// shell, driven by `reset`, `reinit` and `accepts`.
    pub fn new(repeat: u8, delay: u16, keys: Vec<bool>, input: Vec<Keycode>, set: Scanset) -> (r:
        Keyboard)
        requires
            keys@.len() == 256,
            delay >= 250,
        ensures
            r.wf(),
            r.scanset() == set,
            r.led() == 0u8,
            r.repeat() == repeat,
            r.delay() == delay,
            r.keys() == keys@,
            r.buffered() == input@,
            r.buffered_len() == 0,
            r.modifier()@ == 0u16,
    {
        Keyboard {
            set,
            led: 0,
            repeat,
            delay,
            keys,
            input,
            input_size: 0,
            modifier: Mod::empty(),
        }
    }

    /// The command that resets the keyboard; the shell sends it and
    /// accepts only an acknowledgment.
    pub fn reset(&self) -> (r: Command)
        ensures
            r == Command::Reset,
    {
        Command::Reset
    }

    /// The command sequence that brings the hardware in line with this
    /// state: echo probe, scanset select, LED state, enable, typematic
    /// settings — each to be sent in order and checked with `accepts`.
    pub fn reinit(&self) -> (r: Vec<Command>)
        ensures
            r@ =~= seq![
                Command::Echo,
                Command::SetScanset(self.scanset()),
                Command::Led(self.led()),
                Command::Enable,
                Command::Typematic(self.repeat(), self.delay()),
            ],
    {
        let mut cs: Vec<Command> = Vec::new();
        cs.push(Command::Echo);
        cs.push(Command::SetScanset(self.set));
        cs.push(Command::Led(self.led));
        cs.push(Command::Enable);
        cs.push(Command::Typematic(self.repeat, self.delay));
        cs
    }

    /// Whether a response completes a handshake command: the echo probe
    /// answers with an echo, everything else with an acknowledgment.
    pub fn accepts(c: &Command, r: Response) -> (ok: bool)
        ensures
            ok == (if c is Echo {
                r == Response::Echo
            } else {
                r == Response::Ack
            }),
    {
        match c {
            Command::Echo => matches!(r, Response::Echo),
            _ => matches!(r, Response::Ack),
        }
    }

    /// Takes the most recently typed key off the buffer, if any.
    pub fn last(&mut self) -> (r: Option<Keycode>)
        requires
            old(self).wf(),
        ensures
            final(self).wf(),
            final(self).keys() == old(self).keys(),
            final(self).buffered() == old(self).buffered(),
            final(self).modifier() == old(self).modifier(),
            old(self).buffered_len() > 0 ==> {
                &&& r == Some(old(self).buffered()[old(self).buffered_len() - 1])
                &&& final(self).buffered_len() == old(self).buffered_len() - 1
            },
            old(self).buffered_len() == 0 ==> r is None && final(self).buffered_len() == 0,
    {
        let input_size = self.input_size;
        if input_size > 0 {
            self.input_size = self.input_size - 1;
            Some(self.input[input_size - 1])
        } else {
            None
        }
    }

    /// Feeds one scancode through the bookkeeping: an invalid code does
    /// nothing; otherwise the named key's held state follows the make or
    /// break, a modifier key updates the modifier set, and a make is
    /// appended to the buffer while there is room. Multi-byte codes are
    /// not decoded by the set-1 table and are excluded.
    pub fn input(&mut self, scancode: Scancode) -> (r: Option<Keycode>)
        requires
            old(self).wf(),
            scancode matches Scancode::Pressed(b) ==> b[0] != 0xe0 && b[0] != 0xe1,
            scancode matches Scancode::Released(b) ==> b[0] != 0xe0 && b[0] != 0xe1,
        ensures
            final(self).wf(),
            final(self).scanset() == old(self).scanset(),
            scancode is Invalid ==> r is None && *final(self) == *old(self),
            !(scancode is Invalid) ==> ({
                let bytes = match scancode {
                    Scancode::Invalid => [0u8, 0, 0, 0, 0, 0, 0, 0],
                    Scancode::Pressed(b) => b,
                    Scancode::Released(b) => b,
                };
                let keycode = spec_scanset1(
                    if bytes[0] >= 0x80 {
                        (bytes[0] - 0x80) as u8
                    } else {
                        bytes[0]
                    },
                );
                let pressed = scancode is Pressed;
                &&& r == Some(keycode)
                &&& final(self).modifier()@ == (match modifier_bit(keycode) {
                    Some(bit) => if pressed {
                        old(self).modifier()@ | bit
                    } else {
                        old(self).modifier()@ & !bit
                    },
                    None => old(self).modifier()@,
                })
                &&& final(self).keys() == old(self).keys().update(
                    keycode_index(keycode) as int,
                    pressed,
                )
                &&& if pressed && old(self).buffered_len() < old(self).buffered().len() {
                    final(self).buffered() == old(self).buffered().update(
                        old(self).buffered_len(),
                        keycode,
                    ) && final(self).buffered_len() == old(self).buffered_len() + 1
                } else {
                    final(self).buffered() == old(self).buffered() && final(self).buffered_len()
                        == old(self).buffered_len()
                }
            }),
    {
        if scancode.is_valid() {
            let keycode = Keycode::from_scancode_with_scanset(scancode.unwrap(), self.set);
            proof {
                lemma_keycode_index_bound(keycode);
            }

            let mod_bit = match keycode {
                Keycode::ControlLeft => Some(crate::keycode::MOD_CONTROL_LEFT),
                Keycode::ControlRight => Some(crate::keycode::MOD_CONTROL_RIGHT),
                Keycode::AltLeft => Some(crate::keycode::MOD_ALT_LEFT),
                Keycode::AltRight => Some(crate::keycode::MOD_ALT_RIGHT),
                Keycode::ShiftLeft => Some(crate::keycode::MOD_SHIFT_LEFT),
                Keycode::ShiftRight => Some(crate::keycode::MOD_SHIFT_RIGHT),
                Keycode::MetaLeft => Some(crate::keycode::MOD_META_LEFT),
                Keycode::MetaRight => Some(crate::keycode::MOD_META_RIGHT),
                Keycode::SuperLeft => Some(crate::keycode::MOD_SUPER_LEFT),
                Keycode::SuperRight => Some(crate::keycode::MOD_SUPER_RIGHT),
                _ => None,
            };
            match mod_bit {
                Some(bit) => self.modifier.set_flag(bit, scancode.is_pressed()),
                None => {},
            }

            self.keys.set(keycode.as_byte() as usize, scancode.is_pressed());
            if scancode.is_pressed() && self.input_size < self.input.len() {
                let input_size = self.input_size;
                self.input.set(input_size, keycode);
                self.input_size = input_size + 1;
            }

            Some(keycode)
        } else {
            None
        }
    }

    /// The modifier set as of the last scancode fed in.
    pub fn modifiers(&self) -> (r: Mod)
        ensures
            r == self.modifier(),
    {
        self.modifier
    }

    /// Whether a key is currently held.
    pub fn is_pressed(&self, key: Keycode) -> (r: bool)
        requires
            self.wf(),
        ensures
            r == self.keys()[keycode_index(key) as int],
    {
        proof {
            lemma_keycode_index_bound(key);
        }
        self.keys[key.as_byte() as usize]
    }
}

} // verus!
