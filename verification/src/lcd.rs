//! Character-LCD driver behind an I2C GPIO expander: initialization
//! handshake, nibble-multiplexed write protocol, and the bus session
//! that carries both out with fail-fast error propagation.

use vstd::prelude::*;

verus! {

/// Display-control bits of the expander byte.
#[derive(Clone, Copy, Debug, PartialEq, Eq, Structural)]
pub enum DisplayControl {
    Off,
    CursorBlink,
    CursosOn,
    DisplayOn,
}

impl DisplayControl {
    /// Bit value of the control flag inside an expander byte.
    pub open spec fn spec_bits(self) -> u8 {
        match self {
            DisplayControl::Off => 0x00,
            DisplayControl::CursorBlink => 0x01,
            DisplayControl::CursosOn => 0x02,
            DisplayControl::DisplayOn => 0x04,
        }
    }

    /// Bit value of the control flag inside an expander byte.
    pub fn bits(self) -> (b: u8)
        ensures
            b == self.spec_bits(),
    {
        match self {
            DisplayControl::Off => 0x00,
            DisplayControl::CursorBlink => 0x01,
            DisplayControl::CursosOn => 0x02,
            DisplayControl::DisplayOn => 0x04,
        }
    }
}

/// Backlight bit of the expander byte.
#[derive(Clone, Copy, Debug, PartialEq, Eq, Structural)]
pub enum Backlight {
    Off,
    On,
}

impl Backlight {
    /// Bit value of the backlight flag inside an expander byte.
    pub open spec fn spec_bits(self) -> u8 {
        match self {
            Backlight::Off => 0x00,
            Backlight::On => 0x08,
        }
    }

    /// Bit value of the backlight flag inside an expander byte.
    pub fn bits(self) -> (b: u8)
        ensures
            b == self.spec_bits(),
    {
        match self {
            Backlight::Off => 0x00,
            Backlight::On => 0x08,
        }
    }
}

/// "Function set" command of the display controller.
pub const FUNCTION_SET: u8 = 0x20;

/// Interface-width bit of the function-set command: 8-bit wide.
pub const BIT_MODE_8: u8 = 0x10;

/// Interface-width bit of the function-set command: 4-bit wide.
pub const BIT_MODE_4: u8 = 0x00;

/// One transaction of the driver against the outside world: a single
/// byte written to the expander over I2C, or a timed wait.
#[derive(Clone, Copy, Debug, PartialEq, Eq, Structural)]
pub enum BusOp {
    Write(u8),
    DelayMs(u64),
}

/// The one error the driver knows: a failed I2C bus transaction.
#[derive(Clone, Copy, Debug, PartialEq, Eq, Structural)]
pub enum LcdError {
    Bus,
}

/// The expander byte that presents `data` while pulsing enable high:
/// the display-on and backlight bits ride along on every such write.
pub open spec fn assert_byte(data: u8) -> u8 {
    data | DisplayControl::DisplayOn.spec_bits() | Backlight::On.spec_bits()
}

/// The expander byte that releases enable and latches the presented
/// data: control bits cleared, backlight kept on.
pub open spec fn release_byte() -> u8 {
    DisplayControl::Off.spec_bits() | Backlight::On.spec_bits()
}

/// The two-write enable pulse that latches `data` into the
/// controller: assert with data, settle 1 ms, release, settle 5 ms.
pub open spec fn enable_pulse(data: u8) -> Seq<BusOp> {
    seq![
        BusOp::Write(assert_byte(data)),
        BusOp::DelayMs(1),
        BusOp::Write(release_byte()),
        BusOp::DelayMs(5),
    ]
}

/// The initialization handshake: an 80 ms power-on settle, the
/// "function set, 8-bit" command pulsed four times to force the
/// controller into a known 8-bit state whatever it powered up in,
/// then "function set, 4-bit" pulsed once to switch the interface.
pub open spec fn init_ops() -> Seq<BusOp> {
    seq![BusOp::DelayMs(80)] + enable_pulse(FUNCTION_SET | BIT_MODE_8) + enable_pulse(
        FUNCTION_SET | BIT_MODE_8,
    ) + enable_pulse(FUNCTION_SET | BIT_MODE_8) + enable_pulse(FUNCTION_SET | BIT_MODE_8)
        + enable_pulse(FUNCTION_SET | BIT_MODE_4)
}

/// The handshake, written out: after the 80 ms settle, four 8-bit
/// function-set enable-pulse pairs (byte 0x3c asserted, 0x08
/// released), then one 4-bit function-set pair (0x2c, then 0x08),
/// every pulse paced by the 1 ms / 5 ms delays, in this literal
/// order and nothing else.
pub proof fn lemma_init_sequence_literal()
    ensures
        init_ops() =~= seq![
            BusOp::DelayMs(80),
            BusOp::Write(0x3c),
            BusOp::DelayMs(1),
            BusOp::Write(0x08),
            BusOp::DelayMs(5),
            BusOp::Write(0x3c),
            BusOp::DelayMs(1),
            BusOp::Write(0x08),
            BusOp::DelayMs(5),
            BusOp::Write(0x3c),
            BusOp::DelayMs(1),
            BusOp::Write(0x08),
            BusOp::DelayMs(5),
            BusOp::Write(0x3c),
            BusOp::DelayMs(1),
            BusOp::Write(0x08),
            BusOp::DelayMs(5),
            BusOp::Write(0x2c),
            BusOp::DelayMs(1),
            BusOp::Write(0x08),
            BusOp::DelayMs(5),
        ],
{
    assert(0x20u8 | 0x10u8 | 0x04u8 | 0x08u8 == 0x3cu8) by (bit_vector);
    assert(0x20u8 | 0x00u8 | 0x04u8 | 0x08u8 == 0x2cu8) by (bit_vector);
    assert(0x00u8 | 0x08u8 == 0x08u8) by (bit_vector);
}

/// High half of a character code, kept in bits 4-7: the nibble sent
/// first.
pub open spec fn high_nibble(c: u8) -> u8 {
    c & 0xf0
}

/// Low half of a character code, shifted up into bits 4-7: the nibble
/// sent second.
pub open spec fn low_nibble(c: u8) -> u8 {
    (c << 4) & 0xf0
}

/// The operations that transmit one character: its high nibble, then
/// its low nibble, each latched by a full enable pulse.
pub open spec fn char_ops(c: u8) -> Seq<BusOp> {
    enable_pulse(high_nibble(c)) + enable_pulse(low_nibble(c))
}

/// The operations that transmit a text, character by character in
/// order.
pub open spec fn text_ops(text: Seq<u8>) -> Seq<BusOp>
    decreases text.len(),
{
    if text.len() == 0 {
        Seq::empty()
    } else {
        text_ops(text.drop_last()) + char_ops(text.last())
    }
}

/// Appends the enable pulse for `data` to a plan under construction.
fn push_enable_pulse(ops: &mut Vec<BusOp>, data: u8)
    ensures
        final(ops)@ == old(ops)@ + enable_pulse(data),
{
    ops.push(BusOp::Write(data | DisplayControl::DisplayOn.bits() | Backlight::On.bits()));
    ops.push(BusOp::DelayMs(1));
    ops.push(BusOp::Write(DisplayControl::Off.bits() | Backlight::On.bits()));
    ops.push(BusOp::DelayMs(5));
    assert(ops@ =~= old(ops)@ + enable_pulse(data));
}

/// A planned sequence of bus operations, carried out one at a time by
/// whoever owns the bus. The session hands out the next operation,
/// takes back whether it succeeded, and stops handing anything out
/// after the first failure.
pub struct BusSession {
    ops: Vec<BusOp>,
    pos: usize,
    failed: bool,
}

impl BusSession {
    /// The full planned operation sequence.
    pub closed spec fn ops_spec(self) -> Seq<BusOp> {
        self.ops@
    }

    /// How many operations have completed successfully.
    pub closed spec fn pos_spec(self) -> int {
        self.pos as int
    }

    /// Whether a bus write has failed.
    pub closed spec fn failed_spec(self) -> bool {
        self.failed
    }

    /// Progress never runs past the end of the plan.
    pub open spec fn wf(self) -> bool {
        self.pos_spec() <= self.ops_spec().len()
    }

    /// The session is over: the plan ran to its end, or a write
    /// failed.
    pub open spec fn done_spec(self) -> bool {
        self.failed_spec() || self.pos_spec() == self.ops_spec().len()
    }

    /// The operation the session will hand out next, `None` once it
    /// is over.
    pub open spec fn next_op_spec(self) -> Option<BusOp> {
        if self.done_spec() {
            None
        } else {
            Some(self.ops_spec()[self.pos_spec()])
        }
    }

    /// How the session ended: `None` while it is still under way.
    pub open spec fn outcome_spec(self) -> Option<Result<(), LcdError>> {
        if !self.done_spec() {
            None
        } else if self.failed_spec() {
            Some(Err(LcdError::Bus))
        } else {
            Some(Ok(()))
        }
    }

    /// A fresh session over the given plan.
    pub fn new(ops: Vec<BusOp>) -> (s: BusSession)
        ensures
            s.wf(),
            s.ops_spec() == ops@,
            s.pos_spec() == 0,
            !s.failed_spec(),
    {
        BusSession { ops, pos: 0, failed: false }
    }

    /// The next operation to carry out, `None` once the session is
    /// over — in particular, nothing follows a failed write.
    pub fn next_op(&self) -> (op: Option<BusOp>)
        requires
            self.wf(),
        ensures
            op == self.next_op_spec(),
    {
        if self.failed || self.pos == self.ops.len() {
            None
        } else {
            Some(self.ops[self.pos])
        }
    }

    /// Reports the outcome of the operation last handed out. Success
    /// moves the session one step forward; a failure freezes it: the
    /// position stays, and the session is over with a bus error.
    pub fn op_done(&mut self, ok: bool)
        requires
            old(self).wf(),
            !old(self).done_spec(),
        ensures
            final(self).wf(),
            final(self).ops_spec() == old(self).ops_spec(),
            ok ==> final(self).pos_spec() == old(self).pos_spec() + 1 && !final(self).failed_spec(),
            !ok ==> final(self).pos_spec() == old(self).pos_spec() && final(self).failed_spec(),
    {
        if ok {
            let n = self.ops.len();
            assert(self.pos < n);
            self.pos = self.pos + 1;
        } else {
            self.failed = true;
        }
    }

    /// Whether a bus write has failed.
    pub fn is_failed(&self) -> (r: bool)
        ensures
            r == self.failed_spec(),
    {
        self.failed
    }

    /// Whether the session is over.
    pub fn is_done(&self) -> (r: bool)
        requires
            self.wf(),
        ensures
            r == self.done_spec(),
    {
        self.failed || self.pos == self.ops.len()
    }

    /// How the session ended, `None` while it is still under way.
    pub fn outcome(&self) -> (r: Option<Result<(), LcdError>>)
        requires
            self.wf(),
        ensures
            r == self.outcome_spec(),
    {
        if self.failed {
            Some(Err(LcdError::Bus))
        } else if self.pos == self.ops.len() {
            Some(Ok(()))
        } else {
            None
        }
    }
}

/// A failed bus write ends the session at once: no further operation
/// is handed out, and the outcome is the bus error.
pub proof fn lemma_failure_halts(s: BusSession)
    requires
        s.wf(),
        s.failed_spec(),
    ensures
        s.next_op_spec() == None::<BusOp>,
        s.outcome_spec() == Some(Err::<(), LcdError>(LcdError::Bus)),
{
}

/// The character-LCD driver: a device address on the I2C bus, bound
/// to a controller that the initialization handshake has brought into
/// 4-bit mode.
#[derive(Clone, Copy, Debug)]
pub struct Lcd {
    address: u8,
}

impl Lcd {
    /// The 7-bit I2C device address the driver writes to.
    pub closed spec fn address_spec(self) -> u8 {
        self.address
    }

    /// The session that performs the initialization handshake.
    pub fn init_session() -> (s: BusSession)
        ensures
            s.wf(),
            s.ops_spec() == init_ops(),
            s.pos_spec() == 0,
            !s.failed_spec(),
    {
        let mut ops: Vec<BusOp> = Vec::new();
        ops.push(BusOp::DelayMs(80));
        push_enable_pulse(&mut ops, FUNCTION_SET | BIT_MODE_8);
        push_enable_pulse(&mut ops, FUNCTION_SET | BIT_MODE_8);
        push_enable_pulse(&mut ops, FUNCTION_SET | BIT_MODE_8);
        push_enable_pulse(&mut ops, FUNCTION_SET | BIT_MODE_8);
        push_enable_pulse(&mut ops, FUNCTION_SET | BIT_MODE_4);
        assert(ops@ =~= init_ops());
        BusSession::new(ops)
    }

    /// Finishes construction once the handshake session is over:
    /// the driver exists exactly when every handshake operation
    /// succeeded, and a bus failure anywhere in the handshake
    /// surfaces as the bus error instead.
    pub fn try_new(address: u8, init: &BusSession) -> (r: Result<Lcd, LcdError>)
        requires
            init.wf(),
            init.ops_spec() == init_ops(),
            init.done_spec(),
        ensures
            r matches Ok(lcd) ==> !init.failed_spec() && lcd.address_spec() == address,
            r matches Err(e) ==> init.failed_spec() && e == LcdError::Bus,
    {
        if init.is_failed() {
            Err(LcdError::Bus)
        } else {
            Ok(Lcd { address })
        }
    }

    /// The device address writes go to.
    pub fn address(&self) -> (a: u8)
        ensures
            a == self.address_spec(),
    {
        self.address
    }

    /// The session that transmits `text`, nibble by nibble.
    pub fn write_text(&self, text: &[u8]) -> (s: BusSession)
        ensures
            s.wf(),
            s.ops_spec() == text_ops(text@),
            s.pos_spec() == 0,
            !s.failed_spec(),
    {
        let mut ops: Vec<BusOp> = Vec::new();
        let mut i: usize = 0;
        while i < text.len()
            invariant
                i <= text@.len(),
                ops@ == text_ops(text@.take(i as int)),
            decreases text@.len() - i,
        {
            let c = text[i];
            push_enable_pulse(&mut ops, c & 0xf0);
            push_enable_pulse(&mut ops, (c << 4u8) & 0xf0);
            proof {
                assert(text@.take(i + 1).drop_last() =~= text@.take(i as int));
                assert(text@.take(i + 1).last() == c);
                assert(ops@ =~= text_ops(text@.take(i + 1)));
            }
            i = i + 1;
        }
        proof {
            assert(text@.take(text@.len() as int) =~= text@);
        }
        BusSession::new(ops)
    }

    /// The session that writes the fixed greeting of the demo task.
    pub fn hello(&self) -> (s: BusSession)
        ensures
            s.wf(),
            s.ops_spec() == text_ops(hello_text()),
            s.pos_spec() == 0,
            !s.failed_spec(),
    {
        let mut text: Vec<u8> = Vec::new();
        text.push(0x48);
        text.push(0x65);
        text.push(0x6c);
        text.push(0x6c);
        text.push(0x6f);
        text.push(0x20);
        text.push(0x77);
        text.push(0x6f);
        text.push(0x72);
        text.push(0x6c);
        text.push(0x64);
        text.push(0x21);
        proof {
            assert(text@ =~= hello_text());
        }
        self.write_text(text.as_slice())
    }
}

/// The bytes of "Hello world!", the greeting the demo task writes.
pub open spec fn hello_text() -> Seq<u8> {
    seq![0x48u8, 0x65, 0x6c, 0x6c, 0x6f, 0x20, 0x77, 0x6f, 0x72, 0x6c, 0x64, 0x21]
}

} // verus!
