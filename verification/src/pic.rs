//! 8259 programmable interrupt controller bookkeeping: the two-port driver
//! handle, its init-sequence typestate, and the mask arithmetic. Every
//! byte the driver would put on the wire is recorded in order, together
//! with the port it goes to; the shell drains that log into actual port
//! writes. The mask field mirrors what the data port would read back.

use vstd::prelude::*;

verus! {

pub const PIC1: u16 = 0x20;

pub const PIC2: u16 = 0xa0;

/// The two controllers' command-port numbers.
#[derive(Debug, Clone, Copy, PartialEq, Eq, Hash, Structural)]
pub enum Port {
    Pic1,
    Pic2,
}

impl Port {
    /// The command-port number of the controller.
    pub fn into_portno(&self) -> (r: u16)
        ensures
            r == (match self {
                Port::Pic1 => PIC1,
                Port::Pic2 => PIC2,
            }),
    {
        match *self {
            Port::Pic1 => PIC1,
            Port::Pic2 => PIC2,
        }
    }
}

/// The controller operating mode; only the 8086/88 mode is supported.
#[derive(Debug, Clone, Copy, PartialEq, Eq, Hash, Structural)]
pub enum Mode {
    M8086,
}

impl From<Mode> for u8 {
    fn from(mode: Mode) -> u8 {
        match mode {
            Mode::M8086 => 1,
        }
    }
}

impl vstd::std_specs::convert::FromSpecImpl<Mode> for u8 {
    open spec fn obeys_from_spec() -> bool {
        true
    }

    open spec fn from_spec(m: Mode) -> u8 {
        1
    }
}

/// One controller: command port, data port, the mask its data port holds,
/// and the ordered log of bytes put on the wire.
#[derive(Debug, PartialEq, Eq)]
pub struct Pic {
    com: u16,
    dat: u16,
    mask: u8,
    sent: Vec<(u16, u8)>,
}

impl Pic {
    pub closed spec fn com(&self) -> u16 {
        self.com
    }

    pub closed spec fn dat(&self) -> u16 {
        self.dat
    }

    pub closed spec fn mask_view(&self) -> u8 {
        self.mask
    }

    /// The ordered (port, byte) writes the driver has decided on.
    pub closed spec fn sent(&self) -> Seq<(u16, u8)> {
        self.sent@
    }

    /// A handle on the controller at `port`, whose data port currently
    /// holds `mask` (the shell reads it from the hardware).
    pub fn new(port: u16, mask: u8) -> (r: Pic)
        requires
            port < 0xffff,
        ensures
            r.com() == port,
            r.dat() == port + 1,
            r.mask_view() == mask,
            r.sent() == Seq::<(u16, u8)>::empty(),
    {
        Pic { com: port, dat: port + 1, mask, sent: Vec::new() }
    }

    /// Starts the init handshake: the begin-init command byte goes to the
    /// command port, and the handle moves to the init typestate.
    pub fn begin_init(self) -> (r: PicInit)
        ensures
            r.0.com() == self.com(),
            r.0.dat() == self.dat(),
            r.0.mask_view() == self.mask_view(),
            r.0.sent() == self.sent().push((self.com(), 0x11u8)),
    {
        let mut pic = self;
        pic.sent.push((pic.com, 0x11));
        PicInit(pic)
    }

    /// Acknowledges end of interrupt on the command port.
    pub fn eoi(&mut self)
        ensures
            final(self).com() == old(self).com(),
            final(self).dat() == old(self).dat(),
            final(self).mask_view() == old(self).mask_view(),
            final(self).sent() == old(self).sent().push((old(self).com(), 0x20u8)),
    {
        let com = self.com;
        self.sent.push((com, 0x20));
    }

    /// The (port, byte) writes decided so far, in order; the shell drains
    /// them into actual port writes.
    pub fn sent_log(&self) -> (r: &Vec<(u16, u8)>)
        ensures
            r@ == self.sent(),
    {
        &self.sent
    }

    /// The mask the data port holds.
    pub fn mask(&self) -> (r: u8)
        ensures
            r == self.mask_view(),
    {
        self.mask
    }

    /// Masks one interrupt line (0 through 7) and writes the new mask out.
    pub fn set_mask(&mut self, mask: u8) -> (r: u8)
        requires
            mask < 8,
        ensures
            r == (old(self).mask_view() | (1u8 << mask)),
            final(self).com() == old(self).com(),
            final(self).dat() == old(self).dat(),
            final(self).mask_view() == r,
            final(self).sent() == old(self).sent().push((old(self).dat(), r)),
    {
        let mask = self.mask | (1u8 << mask);
        self.mask = mask;
        let dat = self.dat;
        self.sent.push((dat, mask));
        mask
    }

    /// Unmasks one interrupt line (0 through 7) and writes the new mask
    /// out.
    pub fn clear_mask(&mut self, mask: u8) -> (r: u8)
        requires
            mask < 8,
        ensures
            r == (old(self).mask_view() & !(1u8 << mask)),
            final(self).com() == old(self).com(),
            final(self).dat() == old(self).dat(),
            final(self).mask_view() == r,
            final(self).sent() == old(self).sent().push((old(self).dat(), r)),
    {
        let mask = self.mask & !(1u8 << mask);
        self.mask = mask;
        let dat = self.dat;
        self.sent.push((dat, mask));
        mask
    }

    /// Masks every line.
    pub fn set_all(&mut self)
        ensures
            final(self).com() == old(self).com(),
            final(self).dat() == old(self).dat(),
            final(self).mask_view() == 0xffu8,
            final(self).sent() == old(self).sent().push((old(self).dat(), 0xffu8)),
    {
        self.restore_mask(0xff);
    }

    /// Unmasks every line.
    pub fn clear_all(&mut self)
        ensures
            final(self).com() == old(self).com(),
            final(self).dat() == old(self).dat(),
            final(self).mask_view() == 0u8,
            final(self).sent() == old(self).sent().push((old(self).dat(), 0u8)),
    {
        self.restore_mask(0);
    }

    /// Writes a whole mask out.
    pub fn restore_mask(&mut self, mask: u8)
        ensures
            final(self).com() == old(self).com(),
            final(self).dat() == old(self).dat(),
            final(self).mask_view() == mask,
            final(self).sent() == old(self).sent().push((old(self).dat(), mask)),
    {
        self.mask = mask;
        let dat = self.dat;
        self.sent.push((dat, mask));
    }
}

/// A controller in the middle of its init handshake; the remaining
/// initialization words go to the data port, and `end_init` returns the
/// plain handle.
#[derive(Debug, PartialEq, Eq)]
pub struct PicInit(pub Pic);

impl PicInit {
    /// Finishes the handshake with an end-of-interrupt acknowledgment.
    pub fn end_init(self) -> (r: Pic)
        ensures
            r.com() == self.0.com(),
            r.dat() == self.0.dat(),
            r.mask_view() == self.0.mask_view(),
            r.sent() == self.0.sent().push((self.0.com(), 0x20u8)),
    {
        let mut pic = self.0;
        pic.eoi();
        pic
    }

    /// The vector offset this controller's interrupt requests are remapped
    /// to.
    pub fn offset(&mut self, offset: u8)
        ensures
            final(self).0.com() == old(self).0.com(),
            final(self).0.dat() == old(self).0.dat(),
            final(self).0.mask_view() == old(self).0.mask_view(),
            final(self).0.sent() == old(self).0.sent().push((old(self).0.dat(), offset)),
    {
        let dat = self.0.dat;
        self.0.sent.push((dat, offset));
    }

    /// Tells a master controller on which line it receives its slave.
    pub fn slave(&mut self, irq: u8)
        ensures
            final(self).0.com() == old(self).0.com(),
            final(self).0.dat() == old(self).0.dat(),
            final(self).0.mask_view() == old(self).0.mask_view(),
            final(self).0.sent() == old(self).0.sent().push((old(self).0.dat(), irq)),
    {
        let dat = self.0.dat;
        self.0.sent.push((dat, irq));
    }

    /// Tells a slave controller its cascade identity.
    pub fn identity(&mut self, irq: u8)
        ensures
            final(self).0.com() == old(self).0.com(),
            final(self).0.dat() == old(self).0.dat(),
            final(self).0.mask_view() == old(self).0.mask_view(),
            final(self).0.sent() == old(self).0.sent().push((old(self).0.dat(), irq)),
    {
        let dat = self.0.dat;
        self.0.sent.push((dat, irq));
    }

    /// Selects the operating mode.
    pub fn mode(&mut self, mode: Mode)
        ensures
            final(self).0.com() == old(self).0.com(),
            final(self).0.dat() == old(self).0.dat(),
            final(self).0.mask_view() == old(self).0.mask_view(),
            final(self).0.sent() == old(self).0.sent().push((old(self).0.dat(), 1u8)),
    {
        let byte = u8::from(mode);
        let dat = self.0.dat;
        self.0.sent.push((dat, byte));
    }
}

/// The words either controller is sent during the init handshake, in
/// order: begin-init on the command port, then vector offset, cascade
/// word, mode word on the data port, end-of-interrupt on the command port,
/// and the restored mask on the data port.
pub open spec fn init_words(com: u16, dat: u16, offset: u8, cascade: u8, mask: u8) -> Seq<
    (u16, u8),
> {
    seq![(com, 0x11u8), (dat, offset), (dat, cascade), (dat, 1u8), (com, 0x20u8), (dat, mask)]
}

/// Runs the one-shot init handshake on a master/slave controller pair:
/// remaps the master's requests to vectors 0x20 through 0x27 and the
/// slave's to 0x28 through 0x2f, wires the cascade on line 2, selects
/// 8086/88 mode, and restores each controller's pre-init mask. The exact
/// words each controller is sent, in order, are pinned down.
pub fn init_pair(master: Pic, slave: Pic) -> (r: (Pic, Pic))
    ensures
        r.0.com() == master.com(),
        r.0.dat() == master.dat(),
        r.0.mask_view() == master.mask_view(),
        r.0.sent() == master.sent() + init_words(
            master.com(),
            master.dat(),
            0x20,
            0b0100,
            master.mask_view(),
        ),
        r.1.com() == slave.com(),
        r.1.dat() == slave.dat(),
        r.1.mask_view() == slave.mask_view(),
        r.1.sent() == slave.sent() + init_words(
            slave.com(),
            slave.dat(),
            0x28,
            0b0010,
            slave.mask_view(),
        ),
{
    let master_mask = master.mask();
    let slave_mask = slave.mask();

    let mut m = master.begin_init();
    let mut s = slave.begin_init();

    // offset master irq's to 0x20:0x27, slave irq's to 0x28:0x2f
    m.offset(0x20);
    s.offset(0x28);

    // the master has to know where it receives irqs from the slave,
    // the slave its cascade identity, i.e. where it sends irqs
    m.slave(0b0100);
    s.identity(0b0010);

    m.mode(Mode::M8086);
    s.mode(Mode::M8086);

    let mut m = m.end_init();
    let mut s = s.end_init();

    m.restore_mask(master_mask);
    s.restore_mask(slave_mask);

    proof {
        assert(m.sent() =~= master.sent() + init_words(
            master.com(),
            master.dat(),
            0x20,
            0b0100,
            master.mask_view(),
        ));
        assert(s.sent() =~= slave.sent() + init_words(
            slave.com(),
            slave.dat(),
            0x28,
            0b0010,
            slave.mask_view(),
        ));
    }
    (m, s)
}

} // verus!
