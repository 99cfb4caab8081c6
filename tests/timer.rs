use rpi_hal::mmio::{AuxEnables, Board, GpioRegisters, TimerRegisters, UartRegisters};
use rpi_hal::timer::{
    current_time, current_time_ms, millis_to_micros, sleep_elapsed, SystemTimer, TIMER_CHI, TIMER_CLO,
};
use volatile::Volatile;

struct Sim {
    gpio: GpioRegisters,
    timer: TimerRegisters,
    uart: UartRegisters,
    aux: AuxEnables,
}

fn sim(low: u32, high: u32) -> Sim {
    let mut s = Sim {
        gpio: core::array::from_fn(|_| Volatile::new(0u32)),
        timer: core::array::from_fn(|_| Volatile::new(0u32)),
        uart: core::array::from_fn(|_| Volatile::new(0u32)),
        aux: [Volatile::new(0u32)],
    };
    s.timer[TIMER_CLO].write(low);
    s.timer[TIMER_CHI].write(high);
    s
}

impl Sim {
    fn board(&mut self) -> Board<'_> {
        Board::new(&mut self.gpio, &mut self.timer, &mut self.uart, &mut self.aux)
    }
}

#[test]
fn read_joins_the_two_halves() {
    let mut s = sim(5, 2);
    assert_eq!(SystemTimer::new().read(&mut s.board()), (2u64 << 32) | 5);
    assert_eq!(current_time(&mut s.board()), 0x2_0000_0005);
    let mut s = sim(0xFFFF_FFFF, 1);
    assert_eq!(current_time(&mut s.board()), 0x1_FFFF_FFFF);
}

#[test]
fn read_with_largest_halves() {
    let mut s = sim(u32::MAX, u32::MAX);
    assert_eq!(current_time(&mut s.board()), u64::MAX);
}

#[test]
fn milliseconds_are_whole() {
    let mut s = sim(2_500_999, 0);
    assert_eq!(current_time_ms(&mut s.board()), 2_500);
    let mut s = sim(0, 1);
    assert_eq!(current_time_ms(&mut s.board()), (1u64 << 32) / 1000);
}

#[test]
fn sleep_ends_once_duration_has_passed() {
    for d in [0u64, 1, 1000, 1_000_000] {
        let start = 10_000u64;
        if d > 0 {
            assert!(!sleep_elapsed(start, start + d - 1, d));
        }
        assert!(sleep_elapsed(start, start + d, d));
        assert!(sleep_elapsed(start, start + d + 1, d));
    }
    assert!(sleep_elapsed(7, 7, 0));
    assert!(!sleep_elapsed(100, 99, 0));
    assert!(sleep_elapsed(0, u64::MAX, u64::MAX));
}

#[test]
fn millis_convert_to_micros() {
    assert_eq!(millis_to_micros(0), 0);
    assert_eq!(millis_to_micros(1000), 1_000_000);
    assert_eq!(millis_to_micros(u64::MAX / 1000), (u64::MAX / 1000) * 1000);
    assert_eq!(millis_to_micros(u64::MAX / 1000 + 1), u64::MAX);
    assert_eq!(millis_to_micros(u64::MAX), u64::MAX);
}
