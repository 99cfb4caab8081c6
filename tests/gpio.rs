use rpi_hal::gpio::{AltFunction, Gpio, GPCLR0, GPLEV0, GPSET0};
use rpi_hal::mmio::{AuxEnables, Board, GpioRegisters, TimerRegisters, UartRegisters, GPIO_WORDS};
use volatile::Volatile;

struct Sim {
    gpio: GpioRegisters,
    timer: TimerRegisters,
    uart: UartRegisters,
    aux: AuxEnables,
}

fn sim() -> Sim {
    Sim {
        gpio: core::array::from_fn(|_| Volatile::new(0u32)),
        timer: core::array::from_fn(|_| Volatile::new(0u32)),
        uart: core::array::from_fn(|_| Volatile::new(0u32)),
        aux: [Volatile::new(0u32)],
    }
}

impl Sim {
    fn board(&mut self) -> Board<'_> {
        Board::new(&mut self.gpio, &mut self.timer, &mut self.uart, &mut self.aux)
    }

    fn gpio_words(&self) -> Vec<u32> {
        self.gpio.iter().map(|c| c.read()).collect()
    }
}

#[test]
fn pin16_set_writes_only_bit16_of_set0() {
    let mut s = sim();
    let mut pin = Gpio::new(16).as_output(&mut s.board());
    let before = s.gpio_words();
    pin.set(&mut s.board());
    let after = s.gpio_words();
    for i in 0..GPIO_WORDS {
        if i == GPSET0 {
            assert_eq!(after[i], 1 << 16);
        } else {
            assert_eq!(after[i], before[i], "word {} changed", i);
        }
    }
}

#[test]
fn as_output_sets_the_pin_field_only() {
    let mut s = sim();
    s.gpio[1].write(0xFFFF_FFFF);
    Gpio::new(16).as_output(&mut s.board());
    // pin 16: register 1, bits 18..21 become 0b001
    assert_eq!(s.gpio[1].read(), (0xFFFF_FFFF & !(0b111 << 18)) | (0b001 << 18));
    for i in 0..GPIO_WORDS {
        if i != 1 {
            assert_eq!(s.gpio[i].read(), 0);
        }
    }
}

#[test]
fn set_then_clear_writes_one_bit_each() {
    let mut s = sim();
    let mut pin = Gpio::new(45).as_output(&mut s.board());
    pin.set(&mut s.board());
    assert_eq!(s.gpio[GPSET0 + 1].read(), 1 << 13);
    assert_eq!(s.gpio[GPSET0].read(), 0);
    pin.clear(&mut s.board());
    assert_eq!(s.gpio[GPCLR0 + 1].read(), 1 << 13);
    assert_eq!(s.gpio[GPCLR0].read(), 0);
    assert_eq!(s.gpio[GPSET0 + 1].read().count_ones(), 1);
    assert_eq!(s.gpio[GPCLR0 + 1].read().count_ones(), 1);
    assert_eq!(pin.pin(), 45);
}

#[test]
fn same_transition_twice_equals_once() {
    let mut once = sim();
    once.gpio[2].write(0x1234_5678);
    let mut twice = sim();
    twice.gpio[2].write(0x1234_5678);
    Gpio::new(23).as_alt(&mut once.board(), AltFunction(3));
    Gpio::new(23).as_alt(&mut twice.board(), AltFunction(3));
    Gpio::new(23).as_alt(&mut twice.board(), AltFunction(3));
    assert_eq!(once.gpio_words(), twice.gpio_words());
}

#[test]
fn neighbouring_fields_are_kept() {
    let mut s = sim();
    {
        let mut b = s.board();
        Gpio::new(14).as_alt(&mut b, AltFunction(5));
        Gpio::new(15).as_alt(&mut b, AltFunction(5));
    }
    assert_eq!(s.gpio[1].read(), (0b010 << 12) | (0b010 << 15));
    Gpio::new(14).as_output(&mut s.board());
    assert_eq!(s.gpio[1].read(), (0b001 << 12) | (0b010 << 15));
}

#[test]
fn as_input_clears_the_field() {
    let mut s = sim();
    s.gpio[5].write(0xFFFF_FFFF);
    let pin = Gpio::new(53).as_input(&mut s.board());
    assert_eq!(s.gpio[5].read(), 0xFFFF_FFFF & !(0b111 << 9));
    assert_eq!(pin.pin(), 53);
}

#[test]
fn alternate_function_codes() {
    let expected = [0b100u32, 0b101, 0b110, 0b111, 0b011, 0b010];
    for (k, code) in expected.iter().enumerate() {
        let mut s = sim();
        Gpio::new(0).as_alt(&mut s.board(), AltFunction(k as u8));
        assert_eq!(s.gpio[0].read(), *code);
    }
}

#[test]
fn read_level_reports_the_pin_bit() {
    let mut s = sim();
    let mut low = Gpio::new(35).as_input(&mut s.board());
    let mut high = Gpio::new(2).as_input(&mut s.board());
    s.gpio[GPLEV0].write(1 << 2);
    s.gpio[GPLEV0 + 1].write(!(1u32 << 3));
    assert!(high.read_level(&mut s.board()));
    assert!(!low.read_level(&mut s.board()));
    s.gpio[GPLEV0 + 1].write(1 << 3);
    assert!(low.read_level(&mut s.board()));
    let before = s.gpio_words();
    low.read_level(&mut s.board());
    assert_eq!(s.gpio_words(), before);
}
