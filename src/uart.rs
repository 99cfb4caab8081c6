//! Mini-UART driver: configuration, transmit and receive of single bytes.
use vstd::prelude::*;
use crate::gpio::{fsel_events, Alt, AltFunction, FunctionSelect, Gpio};
use crate::mmio::{fresh, value_of, Bank, Board, Event};
use crate::stdio::{BufferError, Stdio, CAPACITY};

verus! {

/// I/O data: a write sends a byte, a read takes the received one.
pub const MU_IO: usize = 0;

/// Interrupt enable.
pub const MU_IER: usize = 1;

/// Interrupt identify.
pub const MU_IIR: usize = 2;

/// Line control.
pub const MU_LCR: usize = 3;

/// Modem control.
pub const MU_MCR: usize = 4;

/// Line status.
pub const MU_LSR: usize = 5;

/// Modem status.
pub const MU_MSR: usize = 6;

/// Scratch.
pub const MU_SCRATCH: usize = 7;

/// Extra control: transmitter, receiver and flow control enables.
pub const MU_CNTL: usize = 8;

/// Extra status.
pub const MU_STAT: usize = 9;

/// Baud rate divisor.
pub const MU_BAUD: usize = 10;

/// Bit of the enable register that switches the Mini-UART on.
pub const AUX_MU_ENABLE: u32 = 0b1;

/// Line control value for 8-bit data.
pub const LCR_DATA_8BIT: u32 = 0b11;

/// Extra control value that enables the transmitter and the receiver.
pub const CNTL_TX_RX: u32 = 0b11;

/// Extra control value that also sets the CTS and RTS polarities, the RTS
/// flow level and enables both flow controls.
pub const CNTL_FLOW_CONTROL: u32 = 0b1111_1111;

/// Line status bit: the receive FIFO holds at least one byte.
pub const LSR_DATA_READY: u32 = 0b1;

/// Line status bit: the transmitter can accept a byte.
pub const LSR_TX_EMPTY: u32 = 0b10_0000;

/// Clock of the core that drives the Mini-UART, in hertz.
pub const SYSTEM_CLOCK_HZ: u32 = 250_000_000;

/// The baud rate used when nothing else is configured.
pub const DEFAULT_BAUD: u32 = 115_200;

/// The baud-rate divisor: `clock / (8 * baud) - 1`.
pub open spec fn divisor(baud: u32) -> int {
    SYSTEM_CLOCK_HZ as int / (8 * baud as int) - 1
}

/// A baud rate that the system clock can reach with a 16-bit divisor:
/// `0 <= clock / (8 * baud) - 1 <= 0xffff`.
pub open spec fn valid_baud(baud: u32) -> bool {
    &&& baud > 0
    &&& 8 * baud as int <= SYSTEM_CLOCK_HZ as int
    &&& (SYSTEM_CLOCK_HZ as int) < 8 * (baud as int) * 0x1_0001
}

/// Whether `baud` can be configured; to be tested before `Uart::new`.
pub fn is_valid_baud(baud: u32) -> (r: bool)
    ensures
        r == valid_baud(baud),
{
    let baud64: u64 = baud as u64;
    baud64 > 0 && 8 * baud64 <= SYSTEM_CLOCK_HZ as u64 && (SYSTEM_CLOCK_HZ as u64) < 8 * baud64
        * 0x1_0001
}

/// The divisor register value for `baud`.
pub fn baud_divisor(baud: u32) -> (r: u32)
    requires
        valid_baud(baud),
    ensures
        r == divisor(baud),
{
    let eight_baud: u64 = 8 * (baud as u64);
    let quotient: u64 = (SYSTEM_CLOCK_HZ as u64) / eight_baud;
    assert(quotient >= 1) by (nonlinear_arith)
        requires
            0 < eight_baud <= 250_000_000,
            quotient == 250_000_000u64 / eight_baud,
    ;
    (quotient - 1) as u32
}

/// The accesses of `Uart::new` at `baud`, in order, when the enable
/// register loads as `enables` and the function-select register of pins 14
/// and 15 loads as `fsel14`, then as `fsel15`: switch the Mini-UART on,
/// 8-bit data, the baud divisor, pins 14 and 15 to alternate function 5,
/// then the transmitter and receiver enables.
pub open spec fn init_events(baud: u32, enables: u32, fsel14: u32, fsel15: u32) -> Seq<Event> {
    seq![
        Event::Load(Bank::Aux, 0, enables),
        Event::Store(Bank::Aux, 0, enables | AUX_MU_ENABLE),
        Event::Store(Bank::Uart, MU_LCR, LCR_DATA_8BIT),
        Event::Store(Bank::Uart, MU_BAUD, divisor(baud) as u32),
    ] + fsel_events(14, FunctionSelect::AF5, fsel14) + fsel_events(15, FunctionSelect::AF5, fsel15)
        + seq![Event::Store(Bank::Uart, MU_CNTL, CNTL_TX_RX)]
}

/// The accesses of `with_auto_flow_control`, in order, when the
/// function-select register of pins 16 and 17 loads as `fsel16`, then as
/// `fsel17`: pins 16 and 17 to alternate function 5, then the flow control
/// bits.
pub open spec fn flow_control_events(fsel16: u32, fsel17: u32) -> Seq<Event> {
    fsel_events(16, FunctionSelect::AF5, fsel16) + fsel_events(17, FunctionSelect::AF5, fsel17)
        + seq![Event::Store(Bank::Uart, MU_CNTL, CNTL_FLOW_CONTROL)]
}

/// Whether the line status register reports a received byte.
pub open spec fn data_ready(lsr: u32) -> bool {
    lsr & LSR_DATA_READY != 0
}

/// Whether the line status register reports room for a byte to send.
pub open spec fn tx_empty(lsr: u32) -> bool {
    lsr & LSR_TX_EMPTY != 0
}

/// The Mini-UART, with the pins it holds in alternate function 5.
pub struct Uart {
    tx: Gpio<Alt>,
    rx: Gpio<Alt>,
    cts_rts: Option<(Gpio<Alt>, Gpio<Alt>)>,
    timeout: Option<u32>,
}

impl Uart {
    /// Whether the CTS and RTS pins are held for hardware flow control.
    pub closed spec fn spec_flow_control(&self) -> bool {
        self.cts_rts is Some
    }

    pub closed spec fn spec_timeout(&self) -> Option<u32> {
        self.timeout
    }

    /// Switches the Mini-UART on and configures it, in this order: the enable
    /// bit (a read-modify-write), 8-bit data, the baud divisor, pins 14 (TX)
    /// and 15 (RX) to alternate function 5, and the transmitter and receiver
    /// enables.
    pub fn new(board: &mut Board, baud: u32) -> (r: Uart)
        requires
            valid_baud(baud),
        ensures
            final(board).log() == old(board).log() + init_events(
                baud,
                fresh(old(board).log(), final(board).log(), 0),
                fresh(old(board).log(), final(board).log(), 4),
                fresh(old(board).log(), final(board).log(), 6),
            ),
            !r.spec_flow_control(),
            r.spec_timeout() is None,
    {
        let ghost start = board.log();
        let enables = board.load(Bank::Aux, 0);
        board.store(Bank::Aux, 0, enables | AUX_MU_ENABLE);
        board.store(Bank::Uart, MU_LCR, LCR_DATA_8BIT);
        let divisor = baud_divisor(baud);
        board.store(Bank::Uart, MU_BAUD, divisor);
        let ghost before_tx = board.log();
        let tx = Gpio::new(14).as_alt(board, AltFunction(5));
        let ghost fsel14 = fresh(before_tx, board.log(), 0);
        let ghost before_rx = board.log();
        let rx = Gpio::new(15).as_alt(board, AltFunction(5));
        let ghost fsel15 = fresh(before_rx, board.log(), 0);
        board.store(Bank::Uart, MU_CNTL, CNTL_TX_RX);
        proof {
            let events = init_events(baud, enables, fsel14, fsel15);
            assert(board.log() =~= start + events);
            assert(fresh(start, board.log(), 0) == enables);
            assert(fresh(start, board.log(), 4) == fsel14);
            assert(fresh(start, board.log(), 6) == fsel15);
        }
        Uart { tx, rx, cts_rts: None, timeout: None }
    }

    /// Adds hardware flow control: pins 16 (CTS) and 17 (RTS) to alternate
    /// function 5, then the flow control bits of the extra control register.
    pub fn with_auto_flow_control(self, board: &mut Board) -> (r: Self)
        ensures
            final(board).log() == old(board).log() + flow_control_events(
                fresh(old(board).log(), final(board).log(), 0),
                fresh(old(board).log(), final(board).log(), 2),
            ),
            r.spec_flow_control(),
            r.spec_timeout() == self.spec_timeout(),
    {
        let ghost start = board.log();
        let cts = Gpio::new(16).as_alt(board, AltFunction(5));
        let ghost fsel16 = fresh(start, board.log(), 0);
        let ghost before_rts = board.log();
        let rts = Gpio::new(17).as_alt(board, AltFunction(5));
        let ghost fsel17 = fresh(before_rts, board.log(), 0);
        board.store(Bank::Uart, MU_CNTL, CNTL_FLOW_CONTROL);
        proof {
            assert(board.log() =~= start + flow_control_events(fsel16, fsel17));
            assert(fresh(start, board.log(), 0) == fsel16);
            assert(fresh(start, board.log(), 2) == fsel17);
        }
        Uart { cts_rts: Some((cts, rts)), ..self }
    }

    /// The same UART with a timeout of `timeout`.
    pub fn with_timeout(self, timeout: u32) -> (r: Self)
        ensures
            r.spec_timeout() == Some(timeout),
            r.spec_flow_control() == self.spec_flow_control(),
    {
        Uart { timeout: Some(timeout), ..self }
    }

    /// Sets the timeout to `timeout`.
    pub fn set_timeout(&mut self, timeout: u32)
        ensures
            final(self).spec_timeout() == Some(timeout),
            final(self).spec_flow_control() == old(self).spec_flow_control(),
    {
        self.timeout = Some(timeout);
    }

    /// The configured timeout, if any.
    pub fn timeout(&self) -> (r: Option<u32>)
        ensures
            r == self.spec_timeout(),
    {
        self.timeout
    }

    /// Whether hardware flow control is on.
    pub fn flow_control(&self) -> (r: bool)
        ensures
            r == self.spec_flow_control(),
    {
        self.cts_rts.is_some()
    }

    /// One poll of the transmitter: one load of the line status; when it
    /// reports room, one store of `b` to the I/O register and true, else no
    /// other access and false. A blocking write repeats this until it
    /// returns true.
    pub fn try_write_byte(&mut self, board: &mut Board, b: u8) -> (r: bool)
        ensures
            *final(self) == *old(self),
            r == tx_empty(fresh(old(board).log(), final(board).log(), 0)),
            r ==> final(board).log() == old(board).log() + seq![
                Event::Load(Bank::Uart, MU_LSR, fresh(old(board).log(), final(board).log(), 0)),
                Event::Store(Bank::Uart, MU_IO, b as u32),
            ],
            !r ==> final(board).log() == old(board).log().push(
                Event::Load(Bank::Uart, MU_LSR, fresh(old(board).log(), final(board).log(), 0)),
            ),
    {
        let status = board.load(Bank::Uart, MU_LSR);
        if status & LSR_TX_EMPTY != 0 {
            board.store(Bank::Uart, MU_IO, b as u32);
            assert(board.log() =~= old(board).log() + seq![
                Event::Load(Bank::Uart, MU_LSR, status),
                Event::Store(Bank::Uart, MU_IO, b as u32),
            ]);
            true
        } else {
            false
        }
    }

    /// One poll of the receiver: one load of the line status, and whether it
    /// reports a received byte.
    pub fn has_byte(&self, board: &mut Board) -> (r: bool)
        ensures
            final(board).log() == old(board).log().push(
                Event::Load(Bank::Uart, MU_LSR, fresh(old(board).log(), final(board).log(), 0)),
            ),
            r == data_ready(fresh(old(board).log(), final(board).log(), 0)),
    {
        let status = board.load(Bank::Uart, MU_LSR);
        status & LSR_DATA_READY != 0
    }

    /// One load of the I/O register, and its low byte; meaningful only right
    /// after `has_byte` returned true.
    pub fn read_byte(&self, board: &mut Board) -> (r: u8)
        ensures
            final(board).log() == old(board).log().push(
                Event::Load(Bank::Uart, MU_IO, fresh(old(board).log(), final(board).log(), 0)),
            ),
            r == fresh(old(board).log(), final(board).log(), 0) as u8,
    {
        let data = board.load(Bank::Uart, MU_IO);
        data as u8
    }

    /// Moves received bytes into `stdin` while the line status reports one:
    /// `Ok` once it reports none, `Capacity` once `stdin` is full (the byte
    /// read last is then lost). Bytes already in `stdin` stay in front.
    pub fn read_to_stdin(&self, board: &mut Board, stdin: &mut Stdio) -> (r: Result<(), BufferError>)
        ensures
            final(stdin)@.len() >= old(stdin)@.len(),
            final(stdin)@.take(old(stdin)@.len() as int) == old(stdin)@,
            final(stdin).spec_slot() == old(stdin).spec_slot(),
            final(board).log().len() > old(board).log().len(),
            final(board).log().take(old(board).log().len() as int) == old(board).log(),
            r is Ok ==> final(board).log().last() == Event::Load(
                Bank::Uart,
                MU_LSR,
                value_of(final(board).log().last()),
            ) && !data_ready(value_of(final(board).log().last())),
            r is Err ==> r == Err::<(), BufferError>(BufferError::Capacity) && final(stdin)@.len()
                == CAPACITY - 1,
    {
        let _ = stdin.len();
        assert(stdin@.take(stdin@.len() as int) =~= stdin@);
        assert(board.log().take(board.log().len() as int) =~= board.log());
        loop
            invariant
                stdin@.len() >= old(stdin)@.len(),
                stdin@.take(old(stdin)@.len() as int) == old(stdin)@,
                stdin.spec_slot() == old(stdin).spec_slot(),
                board.log().len() >= old(board).log().len(),
                board.log().take(old(board).log().len() as int) == old(board).log(),
                stdin@.len() < CAPACITY,
            decreases CAPACITY - stdin@.len(),
        {
            if !self.has_byte(board) {
                assert(board.log().take(old(board).log().len() as int) =~= old(board).log());
                return Ok(());
            }
            let b = self.read_byte(board);
            assert(board.log().take(old(board).log().len() as int) =~= old(board).log());
            if stdin.push(b).is_err() {
                return Err(BufferError::Capacity);
            }
            assert(stdin@.take(old(stdin)@.len() as int) =~= old(stdin)@);
            let _ = stdin.len();
        }
    }
}

} // verus!
