use rpi_hal::mmio::{AuxEnables, Board, GpioRegisters, TimerRegisters, UartRegisters, UART_WORDS};
use rpi_hal::stdio::{BufferBroker, BufferError, CAPACITY};
use rpi_hal::uart::{
    baud_divisor, is_valid_baud, Uart, DEFAULT_BAUD, LSR_DATA_READY, LSR_TX_EMPTY, MU_BAUD, MU_CNTL, MU_IO,
    MU_LCR, MU_LSR,
};
use volatile::Volatile;

struct Sim {
    gpio: GpioRegisters,
    timer: TimerRegisters,
    uart: UartRegisters,
    aux: AuxEnables,
}

fn sim() -> Sim {
    Sim {
        gpio: core::array::from_fn(|_| Volatile::new(0u32)),
        timer: core::array::from_fn(|_| Volatile::new(0u32)),
        uart: core::array::from_fn(|_| Volatile::new(0u32)),
        aux: [Volatile::new(0b100u32)],
    }
}

impl Sim {
    fn board(&mut self) -> Board<'_> {
        Board::new(&mut self.gpio, &mut self.timer, &mut self.uart, &mut self.aux)
    }

    fn uart_words(&self) -> Vec<u32> {
        self.uart.iter().map(|c| c.read()).collect()
    }

    fn other_words(&self) -> Vec<u32> {
        let mut w: Vec<u32> = self.gpio.iter().map(|c| c.read()).collect();
        w.extend(self.timer.iter().map(|c| c.read()));
        w.push(self.aux[0].read());
        w
    }
}

fn setup() -> (Sim, Uart) {
    let mut s = sim();
    let uart = Uart::new(&mut s.board(), DEFAULT_BAUD);
    (s, uart)
}

#[test]
fn divisor_for_115200_baud() {
    assert_eq!(baud_divisor(115_200), 270);
    assert_eq!(baud_divisor(9_600), 3254);
}

#[test]
fn new_configures_the_registers() {
    let (s, uart) = setup();
    assert_eq!(s.aux[0].read(), 0b101);
    assert_eq!(s.uart[MU_LCR].read(), 0b11);
    assert_eq!(s.uart[MU_BAUD].read(), 270);
    assert_eq!(s.uart[MU_CNTL].read(), 0b11);
    // pins 14 and 15: register 1, fields at bits 12 and 15, alternate function 5
    assert_eq!(s.gpio[1].read(), (0b010 << 12) | (0b010 << 15));
    assert!(!uart.flow_control());
    assert_eq!(uart.timeout(), None);
}

#[test]
fn flow_control_claims_pins_16_and_17() {
    let (mut s, uart) = setup();
    let uart = uart.with_auto_flow_control(&mut s.board());
    assert!(uart.flow_control());
    assert_eq!(s.uart[MU_CNTL].read(), 0xFF);
    assert_eq!(s.gpio[1].read(), (0b010 << 12) | (0b010 << 15) | (0b010 << 18) | (0b010 << 21));
}

#[test]
fn write_byte_with_transmitter_empty() {
    let (mut s, mut uart) = setup();
    s.uart[MU_LSR].write(LSR_TX_EMPTY);
    let before = s.uart_words();
    let others = s.other_words();
    assert!(uart.try_write_byte(&mut s.board(), 0x41));
    let after = s.uart_words();
    for i in 0..UART_WORDS {
        if i == MU_IO {
            assert_eq!(after[i], 0x41);
        } else {
            assert_eq!(after[i], before[i]);
        }
    }
    assert_eq!(s.other_words(), others);
}

#[test]
fn write_byte_waits_while_transmitter_busy() {
    let (mut s, mut uart) = setup();
    s.uart[MU_LSR].write(LSR_DATA_READY);
    s.uart[MU_IO].write(0x99);
    let before = s.uart_words();
    assert!(!uart.try_write_byte(&mut s.board(), 0x41));
    assert_eq!(s.uart_words(), before);
}

#[test]
fn has_byte_and_read_byte() {
    let (mut s, uart) = setup();
    assert!(!uart.has_byte(&mut s.board()));
    s.uart[MU_LSR].write(0x60);
    assert!(!uart.has_byte(&mut s.board()));
    s.uart[MU_LSR].write(0x61);
    s.uart[MU_IO].write(0x1_6B);
    assert!(uart.has_byte(&mut s.board()));
    assert_eq!(uart.read_byte(&mut s.board()), b'k');
}

#[test]
fn read_to_stdin_stops_when_no_byte_waits() {
    let (mut s, uart) = setup();
    let mut broker = BufferBroker::new();
    let mut stdin = broker.stdin().unwrap();
    stdin.push(b'a').unwrap();
    assert_eq!(uart.read_to_stdin(&mut s.board(), &mut stdin), Ok(()));
    assert_eq!(stdin.as_slice(), b"a");
}

#[test]
fn read_to_stdin_fills_the_buffer_at_most() {
    let (mut s, uart) = setup();
    s.uart[MU_LSR].write(LSR_DATA_READY);
    s.uart[MU_IO].write(b'z' as u32);
    let mut broker = BufferBroker::new();
    let mut stdin = broker.stdin().unwrap();
    assert_eq!(uart.read_to_stdin(&mut s.board(), &mut stdin), Err(BufferError::Capacity));
    assert_eq!(stdin.len(), CAPACITY - 1);
    assert!(stdin.as_slice().iter().all(|&b| b == b'z'));
}

#[test]
fn timeouts_are_recorded() {
    let (_s, uart) = setup();
    let mut uart = uart.with_timeout(500);
    assert_eq!(uart.timeout(), Some(500));
    uart.set_timeout(7);
    assert_eq!(uart.timeout(), Some(7));
    assert!(!uart.flow_control());
}

#[test]
fn baud_rates_that_can_be_configured() {
    assert!(is_valid_baud(115_200));
    assert!(is_valid_baud(477));
    assert!(!is_valid_baud(476));
    assert!(is_valid_baud(31_250_000));
    assert!(!is_valid_baud(31_250_001));
    assert!(!is_valid_baud(0));
    assert_eq!(baud_divisor(477), 65_512);
    assert_eq!(baud_divisor(31_250_000), 0);
}
