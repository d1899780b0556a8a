//! Driver bookkeeping: interrupt controller, keyboard protocol and state,
//! scancode decoding, keycodes, and the console state machine.

use hhkernel::keyboard::{send_step, Command, Keyboard, Response, Scanset, SendOutcome};
use hhkernel::keycode::Keycode;
use hhkernel::pic::{init_pair, Mode, Pic, Port};
use hhkernel::scancode::{long_needs_rest, poll_first, poll_long, poll_very_long, PollStep, Scancode};
use hhkernel::vga::{Char, Color, Shade, Vga};

#[test]
fn pic_ports_and_mode() {
    assert_eq!(Port::Pic1.into_portno(), 0x20);
    assert_eq!(Port::Pic2.into_portno(), 0xa0);
    assert_eq!(u8::from(Mode::M8086), 1);
}

#[test]
fn pic_mask_arithmetic() {
    let mut pic = Pic::new(0x20, 0b1010_1010);
    assert_eq!(pic.mask(), 0b1010_1010);
    assert_eq!(pic.set_mask(0), 0b1010_1011);
    assert_eq!(pic.clear_mask(1), 0b1010_1001);
    pic.set_all();
    assert_eq!(pic.mask(), 0xff);
    pic.clear_all();
    assert_eq!(pic.mask(), 0);
    pic.restore_mask(0x42);
    assert_eq!(pic.mask(), 0x42);
    pic.eoi();
    let log = pic.sent_log();
    assert_eq!(
        log.as_slice(),
        &[(0x21, 0b1010_1011), (0x21, 0b1010_1001), (0x21, 0xff), (0x21, 0), (0x21, 0x42), (0x20, 0x20)]
    );
}

#[test]
fn pic_init_handshake() {
    let master = Pic::new(0x20, 0x55);
    let slave = Pic::new(0xa0, 0xaa);
    let (master, slave) = init_pair(master, slave);
    assert_eq!(master.mask(), 0x55);
    assert_eq!(slave.mask(), 0xaa);
    assert_eq!(
        master.sent_log().as_slice(),
        &[(0x20, 0x11), (0x21, 0x20), (0x21, 0b0100), (0x21, 1), (0x20, 0x20), (0x21, 0x55)]
    );
    assert_eq!(
        slave.sent_log().as_slice(),
        &[(0xa0, 0x11), (0xa1, 0x28), (0xa1, 0b0010), (0xa1, 1), (0xa0, 0x20), (0xa1, 0xaa)]
    );
}

#[test]
fn command_wire_form() {
    assert_eq!(Command::Echo.into_bytes(), (0xee, None));
    assert_eq!(Command::Led(0b0100).into_bytes(), (0xed, Some(0b0100)));
    assert_eq!(Command::GetScanset.into_bytes(), (0xf0, Some(0)));
    assert_eq!(Command::SetScanset(Scanset::Set1).into_bytes(), (0xf0, Some(1)));
    assert_eq!(Command::Enable.into_bytes(), (0xf4, None));
    assert_eq!(Command::Reset.into_bytes(), (0xff, None));
    // repeat rate 10, delay 500ms: one extra 250ms step in bits five and six
    assert_eq!(Command::Typematic(10, 500).into_bytes(), (0xf3, Some(10 | 0x20)));
    assert_eq!(Command::Typematic(0, 250).into_bytes(), (0xf3, Some(0)));
}

#[test]
fn response_wire_form() {
    assert_eq!(Response::from_byte(0xfa), Some(Response::Ack));
    assert_eq!(Response::from_byte(0xfe), Some(Response::Resend));
    assert_eq!(Response::from_byte(0xee), Some(Response::Echo));
    assert_eq!(Response::from_byte(0x00), Some(Response::Err1));
    assert_eq!(Response::from_byte(0xff), Some(Response::Err2));
    assert_eq!(Response::from_byte(0xaa), Some(Response::Pass));
    assert_eq!(Response::from_byte(0xfc), Some(Response::Fail1));
    assert_eq!(Response::from_byte(0xfd), Some(Response::Fail2));
    assert_eq!(Response::from_byte(0x42), None);
}

#[test]
fn send_loop_decisions() {
    assert_eq!(send_step(1, 0xfa), SendOutcome::Done(Response::Ack));
    assert_eq!(send_step(1, 0xee), SendOutcome::Done(Response::Echo));
    assert_eq!(send_step(1, 0xaa), SendOutcome::Done(Response::Pass));
    assert_eq!(send_step(1, 0xfe), SendOutcome::Retry);
    assert_eq!(send_step(3, 0xfe), SendOutcome::Retry);
    assert_eq!(send_step(4, 0xfa), SendOutcome::Fail(None));
    assert_eq!(send_step(1, 0xfc), SendOutcome::Fail(Some(Response::Fail1)));
    assert_eq!(send_step(2, 0x00), SendOutcome::Fail(Some(Response::Err1)));
    assert_eq!(send_step(1, 0x42), SendOutcome::Fail(None));
}

fn fresh_keyboard() -> Keyboard {
    Keyboard::new(0, 250, vec![false; 256], vec![Keycode::Unknown; 256], Scanset::Set1)
}

#[test]
fn keyboard_handshake_plan() {
    let kb = fresh_keyboard();
    assert_eq!(kb.reset(), Command::Reset);
    let plan = kb.reinit();
    assert_eq!(
        plan.as_slice(),
        &[
            Command::Echo,
            Command::SetScanset(Scanset::Set1),
            Command::Led(0),
            Command::Enable,
            Command::Typematic(0, 250),
        ]
    );
    assert!(Keyboard::accepts(&Command::Echo, Response::Echo));
    assert!(!Keyboard::accepts(&Command::Echo, Response::Ack));
    assert!(Keyboard::accepts(&Command::Enable, Response::Ack));
    assert!(!Keyboard::accepts(&Command::Reset, Response::Echo));
}

#[test]
fn keyboard_tracks_keys_and_modifiers() {
    let mut kb = fresh_keyboard();
    // shift make, then the A key
    let k = kb.input(Scancode::Pressed([0x2a, 0, 0, 0, 0, 0, 0, 0]));
    assert_eq!(k, Some(Keycode::ShiftLeft));
    assert!(kb.modifiers().isshift());
    assert!(!kb.modifiers().iscontrol());
    assert!(kb.is_pressed(Keycode::ShiftLeft));

    let k = kb.input(Scancode::Pressed([0x1e, 0, 0, 0, 0, 0, 0, 0]));
    assert_eq!(k, Some(Keycode::A));
    assert!(kb.is_pressed(Keycode::A));

    // shift break: release bit set on the make code
    let k = kb.input(Scancode::Released([0xaa, 0, 0, 0, 0, 0, 0, 0]));
    assert_eq!(k, Some(Keycode::ShiftLeft));
    assert!(!kb.modifiers().isshift());
    assert!(!kb.is_pressed(Keycode::ShiftLeft));

    // typed keys come back newest-first
    assert_eq!(kb.last(), Some(Keycode::A));
    assert_eq!(kb.last(), Some(Keycode::ShiftLeft));
    assert_eq!(kb.last(), None);

    // an invalid code contributes nothing
    assert_eq!(kb.input(Scancode::Invalid), None);
}

#[test]
fn scancode_classification() {
    let p = Scancode::Pressed([0x1e, 0, 0, 0, 0, 0, 0, 0]);
    assert!(p.is_valid());
    assert!(p.is_pressed());
    assert_eq!(p.try_unwrap().unwrap()[0], 0x1e);
    let r = Scancode::Released([0x9e, 0, 0, 0, 0, 0, 0, 0]);
    assert!(r.is_valid());
    assert!(!r.is_pressed());
    assert!(!Scancode::Invalid.is_valid());
    assert_eq!(Scancode::Invalid.try_unwrap(), None);
}

#[test]
fn poll_decoding() {
    assert_eq!(poll_first(0), PollStep::Again);
    assert_eq!(poll_first(0xe0), PollStep::Long);
    assert_eq!(poll_first(0xe1), PollStep::VeryLong);
    assert_eq!(
        poll_first(0x1c),
        PollStep::Done(Scancode::Pressed([0x1c, 0, 0, 0, 0, 0, 0, 0]))
    );
    assert_eq!(
        poll_first(0x9c),
        PollStep::Done(Scancode::Released([0x9c, 0, 0, 0, 0, 0, 0, 0]))
    );

    assert!(long_needs_rest(0x2a));
    assert!(long_needs_rest(0xb7));
    assert!(!long_needs_rest(0x48));
    assert_eq!(
        poll_long(0x2a, Some((0xe0, 0x37))),
        Scancode::Pressed([0xe0, 0x2a, 0xe0, 0x37, 0, 0, 0, 0])
    );
    assert_eq!(poll_long(0x2a, Some((0, 0))), Scancode::Invalid);
    assert_eq!(
        poll_long(0xb7, Some((0xe0, 0xaa))),
        Scancode::Pressed([0xe0, 0xb7, 0xe0, 0xaa, 0, 0, 0, 0])
    );
    assert_eq!(
        poll_long(0x48, None),
        Scancode::Pressed([0xe0, 0x48, 0, 0, 0, 0, 0, 0])
    );
    assert_eq!(
        poll_long(0xc8, None),
        Scancode::Released([0xe0, 0xc8, 0, 0, 0, 0, 0, 0])
    );
    assert_eq!(
        poll_very_long(0x1d, 0x45, 0xe1, 0x9d, 0xc5),
        Scancode::Pressed([0xe1, 0x1d, 0x45, 0xe1, 0x9d, 0xc5, 0, 0])
    );
    assert_eq!(poll_very_long(0x1d, 0x45, 0xe1, 0x9d, 0xc6), Scancode::Invalid);
}

#[test]
fn keycode_table_and_chars() {
    assert_eq!(Keycode::from_scancode([0x1e, 0, 0, 0, 0, 0, 0, 0]), Keycode::A);
    assert_eq!(Keycode::from_scancode([0x9e, 0, 0, 0, 0, 0, 0, 0]), Keycode::A);
    assert_eq!(Keycode::from_scancode([0x01, 0, 0, 0, 0, 0, 0, 0]), Keycode::Escape);
    assert_eq!(Keycode::from_scancode([0x1c, 0, 0, 0, 0, 0, 0, 0]), Keycode::Enter);
    assert_eq!(Keycode::from_scancode([0x39, 0, 0, 0, 0, 0, 0, 0]), Keycode::Space);
    assert_eq!(Keycode::from_scancode([0x58, 0, 0, 0, 0, 0, 0, 0]), Keycode::F12);
    assert_eq!(Keycode::from_scancode([0x54, 0, 0, 0, 0, 0, 0, 0]), Keycode::Unknown);

    assert_eq!(Keycode::A.into_char(), Some(b'a'));
    assert_eq!(Keycode::Zero.into_char(), Some(b'0'));
    assert_eq!(Keycode::Enter.into_char(), Some(b'\n'));
    assert_eq!(Keycode::Backspace.into_char(), Some(0x08));
    assert_eq!(Keycode::F1.into_char(), None);
    assert_eq!(Keycode::ShiftLeft.into_char(), None);

    assert_eq!(Keycode::Zero.as_byte(), 0);
    assert_eq!(Keycode::A.as_byte(), 10);
    assert_ne!(Keycode::A.as_byte(), Keycode::B.as_byte());
}

#[test]
fn vga_colour_codec() {
    assert_eq!(Color::from_attr(2), Some(Color::Green));
    assert_eq!(Color::from_attr(1), Some(Color::Red));
    assert_eq!(Color::from_attr(8), None);
    assert_eq!(u8::from(Color::White), 7);
    assert_eq!(u8::from(Shade::Dark(Color::White)), 7);
    assert_eq!(u8::from(Shade::Bright(Color::White)), 15);
    assert_eq!(Shade::from_attr(0x2), Shade::Dark(Color::Green));
    assert_eq!(Shade::from_attr(0xa), Shade::Bright(Color::Green));
    assert_eq!(Shade::default_bg(), Shade::Dark(Color::Black));
    assert_eq!(Shade::default_fg(), Shade::Dark(Color::White));
    assert_eq!(u16::from(Char::default()), 0x0700);
    assert_eq!(u8::from(Char::from(b'x')), b'x');
    assert_eq!(u16::from(Char(Shade::Dark(Color::Blue), Shade::Bright(Color::Red), b'!')), 0x1c21);
}

#[test]
fn vga_writes_glyphs_and_moves_the_cursor() {
    let mut vga = Vga::new();
    assert_eq!(vga.cells()[0], 0x0700);
    vga.write_bytes(b"ab");
    assert_eq!(vga.cells()[0], 0x0761);
    assert_eq!(vga.cells()[1], 0x0762);
    assert_eq!(vga.cells()[2], 0x0700);
    assert_eq!(vga.cursor(), (0, 2));
    vga.write_bytes(b"\n");
    assert_eq!(vga.cursor(), (1, 0));
    vga.write_bytes(b"\r");
    assert_eq!(vga.cursor(), (1, 0));
}

#[test]
fn vga_tab_pads_to_four() {
    let mut vga = Vga::new();
    vga.write_bytes(b"a\tb");
    assert_eq!(vga.cursor(), (0, 5));
    assert_eq!(vga.cells()[1], 0x0720);
    assert_eq!(vga.cells()[3], 0x0720);
    assert_eq!(vga.cells()[4], 0x0762);
}

#[test]
fn vga_colour_escape() {
    let mut vga = Vga::new();
    vga.write_bytes(b"\x1b[32mx\x1b[0mo");
    // dark green foreground for the first glyph, default for the second
    assert_eq!(vga.cells()[0], 0x0278);
    assert_eq!(vga.cells()[1], 0x076f);
}

#[test]
fn vga_cursor_escapes() {
    let mut vga = Vga::new();
    vga.write_bytes(b"\x1b[3;7H");
    assert_eq!(vga.cursor(), (3, 7));
    vga.write_bytes(b"\x1b[2A");
    assert_eq!(vga.cursor(), (5, 7));
    vga.write_bytes(b"\x1b[4D");
    assert_eq!(vga.cursor(), (5, 3));
    vga.write_bytes(b"\x1b[H");
    assert_eq!(vga.cursor(), (0, 0));
}

#[test]
fn vga_line_wrap() {
    let mut vga = Vga::new();
    let row: Vec<u8> = vec![b'.'; 80];
    vga.write_bytes(&row);
    assert_eq!(vga.cursor(), (1, 0));
    assert_eq!(vga.cells()[79], 0x072e);
}

#[test]
fn vga_echoes_unknown_escapes() {
    let mut vga = Vga::new();
    vga.write_bytes(b"\x1bq");
    // the parser resets and echoes ^[q
    assert_eq!(vga.cells()[0], 0x075e);
    assert_eq!(vga.cells()[1], 0x075b);
    assert_eq!(vga.cells()[2], 0x0771);
    assert_eq!(vga.cursor(), (0, 3));
}

#[test]
fn vga_cls_blanks_everything() {
    let mut vga = Vga::new();
    vga.write_bytes(b"hello");
    vga.cls();
    for i in 0..2000 {
        assert_eq!(vga.cells()[i], 0x0700);
    }
    assert_eq!(vga.cursor(), (0, 5));
}
