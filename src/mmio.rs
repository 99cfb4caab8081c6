//! Register view: the board's memory-mapped register blocks, reached only
//! through volatile loads and stores, each recorded in an access log.
//!
//! Nothing is assumed about the value a load returns: the device may change
//! any register between two accesses, and a store may act rather than be
//! kept (a byte sent, a pin driven). What the library states is the exact
//! sequence of accesses each operation makes, in program order, with the
//! values stored and the values loaded; its decisions are functions of the
//! values loaded.
use vstd::prelude::*;
use volatile::Volatile;

verus! {

/// Base of the SoC's peripheral I/O space.
pub const IO_BASE: usize = 0x3F00_0000;

/// GPIO function-select, set, clear, level and pull registers.
pub const GPIO_BASE: usize = IO_BASE + 0x20_0000;

/// System timer control, counter and compare registers.
pub const TIMER_BASE: usize = IO_BASE + 0x3000;

/// Mini-UART registers.
pub const MU_REG_BASE: usize = IO_BASE + 0x21_5040;

/// Auxiliary peripheral enable register.
pub const AUX_ENABLES: usize = IO_BASE + 0x21_5004;

/// Number of 32-bit words in the GPIO block (GPFSEL0 up to GPPUDCLK1).
pub const GPIO_WORDS: usize = 40;

/// Number of 32-bit words in the system timer block (CS, CLO, CHI, C0..C3).
pub const TIMER_WORDS: usize = 7;

/// Number of 32-bit words in the Mini-UART block (AUX_MU_IO_REG up to AUX_MU_BAUD_REG).
pub const UART_WORDS: usize = 11;

/// The GPIO register block.
pub type GpioRegisters = [Volatile<u32>; 40];

/// The system timer register block.
pub type TimerRegisters = [Volatile<u32>; 7];

/// The Mini-UART register block.
pub type UartRegisters = [Volatile<u32>; 11];

/// The auxiliary peripheral enable register, as a block of one word.
pub type AuxEnables = [Volatile<u32>; 1];

/// The `volatile` crate's cell, opaque here.
#[verifier::external_type_specification]
#[verifier::external_body]
#[verifier::reject_recursive_types(T)]
pub struct ExVolatile<T: Copy>(Volatile<T>);

/// Relies on `Volatile::read`: one volatile load of the cell. Nothing is
/// stated of the value, which the device may have changed.
#[verifier::external_body]
fn volatile_load(c: &Volatile<u32>) -> u32 {
    c.read()
}

/// Relies on `Volatile::write`: one volatile store of `value` to the cell.
#[verifier::external_body]
fn volatile_store(c: &mut Volatile<u32>, value: u32) {
    c.write(value)
}

/// One of the register blocks.
#[derive(Clone, Copy, PartialEq, Eq, Structural, Debug)]
pub enum Bank {
    Gpio,
    Timer,
    Uart,
    Aux,
}

/// One register access: which block and word, and the value loaded or stored.
#[derive(Clone, Copy, PartialEq, Eq, Structural, Debug)]
pub enum Event {
    Load(Bank, usize, u32),
    Store(Bank, usize, u32),
}

/// The value an access loaded or stored.
pub open spec fn value_of(e: Event) -> u32 {
    match e {
        Event::Load(_, _, v) => v,
        Event::Store(_, _, v) => v,
    }
}

/// The value of the `k`-th access that `after` holds beyond `before`.
pub open spec fn fresh(before: Seq<Event>, after: Seq<Event>, k: int) -> u32 {
    value_of(after[before.len() + k])
}

/// How software may access a register.
pub enum Permission {
    ReadOnly,
    WriteOnly,
    ReadWrite,
    Reserved,
}

impl Permission {
    pub open spec fn readable(self) -> bool {
        self is ReadOnly || self is ReadWrite
    }

    pub open spec fn writable(self) -> bool {
        self is WriteOnly || self is ReadWrite
    }
}

/// How software may access word `index` of block `bank`, as the datasheet
/// gives it.
pub open spec fn permission(bank: Bank, index: int) -> Permission {
    match bank {
        Bank::Gpio => if 0 <= index < 6 {
            Permission::ReadWrite
        } else if index == 7 || index == 8 || index == 10 || index == 11 {
            Permission::WriteOnly
        } else if index == 13 || index == 14 {
            Permission::ReadOnly
        } else if 16 <= index < 37 && index % 3 != 0 {
            Permission::ReadWrite
        } else if 37 <= index < 40 {
            Permission::ReadWrite
        } else {
            Permission::Reserved
        },
        Bank::Timer => if index == 1 || index == 2 {
            Permission::ReadOnly
        } else if 0 <= index < 7 {
            Permission::ReadWrite
        } else {
            Permission::Reserved
        },
        Bank::Uart => if index == 5 || index == 6 || index == 9 {
            Permission::ReadOnly
        } else if 0 <= index < 11 {
            Permission::ReadWrite
        } else {
            Permission::Reserved
        },
        Bank::Aux => if index == 0 {
            Permission::ReadWrite
        } else {
            Permission::Reserved
        },
    }
}

/// The board's register blocks, for the life of the program, with the log
/// of every access made through them.
pub struct Board<'a> {
    gpio: &'a mut GpioRegisters,
    timer: &'a mut TimerRegisters,
    uart: &'a mut UartRegisters,
    aux: &'a mut AuxEnables,
    log: Ghost<Seq<Event>>,
}

impl<'a> Board<'a> {
    /// Every access made so far, oldest first.
    pub closed spec fn log(&self) -> Seq<Event> {
        self.log@
    }

    /// The board over its four register blocks; no access is made.
    pub fn new(
        gpio: &'a mut GpioRegisters,
        timer: &'a mut TimerRegisters,
        uart: &'a mut UartRegisters,
        aux: &'a mut AuxEnables,
    ) -> (r: Board<'a>)
        ensures
            r.log() == Seq::<Event>::empty(),
    {
        Board { gpio, timer, uart, aux, log: Ghost(Seq::empty()) }
    }

    /// One volatile load of word `index` of `bank`.
    pub fn load(&mut self, bank: Bank, index: usize) -> (r: u32)
        requires
            permission(bank, index as int).readable(),
        ensures
            final(self).log() == old(self).log().push(Event::Load(bank, index, r)),
    {
        let r = match bank {
            Bank::Gpio => volatile_load(&self.gpio[index]),
            Bank::Timer => volatile_load(&self.timer[index]),
            Bank::Uart => volatile_load(&self.uart[index]),
            Bank::Aux => volatile_load(&self.aux[index]),
        };
        self.log = Ghost(self.log@.push(Event::Load(bank, index, r)));
        r
    }

    /// One volatile store of `value` to word `index` of `bank`.
    pub fn store(&mut self, bank: Bank, index: usize, value: u32)
        requires
            permission(bank, index as int).writable(),
        ensures
            final(self).log() == old(self).log().push(Event::Store(bank, index, value)),
    {
        match bank {
            Bank::Gpio => volatile_store(&mut self.gpio[index], value),
            Bank::Timer => volatile_store(&mut self.timer[index], value),
            Bank::Uart => volatile_store(&mut self.uart[index], value),
            Bank::Aux => volatile_store(&mut self.aux[index], value),
        }
        self.log = Ghost(self.log@.push(Event::Store(bank, index, value)));
    }
}

} // verus!
