use keypad_lcd::lcd::{Backlight, BusOp, BusSession, DisplayControl, Lcd, LcdError};

/// Runs a session to completion with every operation succeeding and
/// returns the operations it handed out, in order.
fn drain(session: &mut BusSession) -> Vec<BusOp> {
    let mut performed = Vec::new();
    while let Some(op) = session.next_op() {
        performed.push(op);
        session.op_done(true);
    }
    performed
}

fn expected_init_ops() -> Vec<BusOp> {
    let mut ops = vec![BusOp::DelayMs(80)];
    for _ in 0..4 {
        // "Function set, 8-bit" with display-on and backlight bits,
        // then the enable release, with the 1 ms / 5 ms settles.
        ops.push(BusOp::Write(0x3c));
        ops.push(BusOp::DelayMs(1));
        ops.push(BusOp::Write(0x08));
        ops.push(BusOp::DelayMs(5));
    }
    // "Function set, 4-bit", pulsed once.
    ops.push(BusOp::Write(0x2c));
    ops.push(BusOp::DelayMs(1));
    ops.push(BusOp::Write(0x08));
    ops.push(BusOp::DelayMs(5));
    ops
}

#[test]
fn control_bit_values() {
    assert_eq!(DisplayControl::Off.bits(), 0x00);
    assert_eq!(DisplayControl::CursorBlink.bits(), 0x01);
    assert_eq!(DisplayControl::CursosOn.bits(), 0x02);
    assert_eq!(DisplayControl::DisplayOn.bits(), 0x04);
    assert_eq!(Backlight::Off.bits(), 0x00);
    assert_eq!(Backlight::On.bits(), 0x08);
}

#[test]
fn init_sequence_bytes_and_order() {
    let mut session = Lcd::init_session();
    let performed = drain(&mut session);
    assert_eq!(performed, expected_init_ops());
    assert_eq!(performed.len(), 21);
    let writes: Vec<&BusOp> = performed
        .iter()
        .filter(|op| matches!(op, BusOp::Write(_)))
        .collect();
    assert_eq!(writes.len(), 10);
}

#[test]
fn try_new_succeeds_after_clean_handshake() {
    let mut session = Lcd::init_session();
    drain(&mut session);
    assert_eq!(session.outcome(), Some(Ok(())));
    let lcd = Lcd::try_new(0x27, &session).expect("handshake succeeded");
    assert_eq!(lcd.address(), 0x27);
}

#[test]
fn bus_error_anywhere_in_init_aborts() {
    // Force the failure at each write of the handshake in turn.
    let total = expected_init_ops().len();
    for fail_at in 0..total {
        let mut session = Lcd::init_session();
        let mut issued = 0;
        let mut failed = false;
        while let Some(op) = session.next_op() {
            if issued == fail_at && matches!(op, BusOp::Write(_)) {
                session.op_done(false);
                failed = true;
                break;
            }
            session.op_done(true);
            issued += 1;
        }
        if failed {
            // Nothing further is handed out and the error surfaces.
            assert_eq!(session.next_op(), None);
            assert_eq!(session.outcome(), Some(Err(LcdError::Bus)));
            assert_eq!(Lcd::try_new(0x27, &session).unwrap_err(), LcdError::Bus);
        } else {
            assert_eq!(session.outcome(), Some(Ok(())));
        }
    }
}

#[test]
fn nibble_split_of_0x41() {
    // 'A' (0x41) splits into high nibble 0x40 and low nibble 0x10;
    // each is transmitted with the control bits 0x0c riding along.
    let lcd = fresh_lcd();
    let mut session = lcd.write_text(&[0x41]);
    let performed = drain(&mut session);
    assert_eq!(
        performed,
        vec![
            BusOp::Write(0x4c),
            BusOp::DelayMs(1),
            BusOp::Write(0x08),
            BusOp::DelayMs(5),
            BusOp::Write(0x1c),
            BusOp::DelayMs(1),
            BusOp::Write(0x08),
            BusOp::DelayMs(5),
        ]
    );
    // The nibbles before the control bits: high first, then low.
    match (&performed[0], &performed[4]) {
        (BusOp::Write(high), BusOp::Write(low)) => {
            assert_eq!(high & 0xf0, 0x40);
            assert_eq!(low & 0xf0, 0x10);
        }
        _ => unreachable!(),
    }
}

fn fresh_lcd() -> Lcd {
    let mut session = Lcd::init_session();
    drain(&mut session);
    Lcd::try_new(0x27, &session).expect("handshake succeeded")
}

#[test]
fn write_text_empty_writes_nothing() {
    let lcd = fresh_lcd();
    let mut session = lcd.write_text(&[]);
    assert_eq!(session.next_op(), None);
    assert_eq!(session.outcome(), Some(Ok(())));
    drain(&mut session);
}

#[test]
fn write_text_sends_characters_in_order() {
    let lcd = fresh_lcd();
    let mut session = lcd.write_text(&[0x48, 0x69]);
    let performed = drain(&mut session);
    assert_eq!(performed.len(), 16);
    // 'H' = 0x48: nibbles 0x40 and 0x80; 'i' = 0x69: nibbles 0x60 and 0x90.
    assert_eq!(performed[0], BusOp::Write(0x40 | 0x0c));
    assert_eq!(performed[4], BusOp::Write(0x80 | 0x0c));
    assert_eq!(performed[8], BusOp::Write(0x60 | 0x0c));
    assert_eq!(performed[12], BusOp::Write(0x90 | 0x0c));
}

#[test]
fn hello_matches_write_text() {
    let lcd = fresh_lcd();
    let mut hello_session = lcd.hello();
    let mut text_session = lcd.write_text(b"Hello world!");
    assert_eq!(drain(&mut hello_session), drain(&mut text_session));
}

#[test]
fn bus_error_during_write_aborts() {
    let lcd = fresh_lcd();
    let mut session = lcd.write_text(&[0x41, 0x42]);
    let first = session.next_op();
    assert!(matches!(first, Some(BusOp::Write(_))));
    session.op_done(false);
    assert_eq!(session.next_op(), None);
    assert_eq!(session.outcome(), Some(Err(LcdError::Bus)));
}
