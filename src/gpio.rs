//! GPIO driver: pins whose configuration state is part of their type.
use core::marker::PhantomData;
use vstd::prelude::*;
use crate::mmio::{fresh, Bank, Board, Event};

verus! {

/// Word index of GPFSEL0; GPFSEL0..GPFSEL5 follow one another.
pub const GPFSEL0: usize = 0;

/// Word index of GPSET0 (GPSET1 follows).
pub const GPSET0: usize = 7;

/// Word index of GPCLR0 (GPCLR1 follows).
pub const GPCLR0: usize = 10;

/// Word index of GPLEV0 (GPLEV1 follows).
pub const GPLEV0: usize = 13;

/// The highest pin number.
pub const MAX_PIN: u8 = 53;

/// Typestate of a pin that has not been configured yet; only the type is used.
pub enum Uninitialised {
    State,
}

/// Typestate of a pin configured as an input; only the type is used.
pub enum Input {
    State,
}

/// Typestate of a pin configured as an output; only the type is used.
pub enum Output {
    State,
}

/// Typestate of a pin configured for one of its alternate functions; only the type is used.
pub enum Alt {
    State,
}

/// The 3-bit function-select codes of the hardware.
#[derive(Clone, Copy, PartialEq, Eq, Structural, Debug)]
pub enum FunctionSelect {
    Input,
    Output,
    AF0,
    AF1,
    AF2,
    AF3,
    AF4,
    AF5,
}

impl FunctionSelect {
    pub open spec fn spec_bits(self) -> u32 {
        match self {
            FunctionSelect::Input => 0b000,
            FunctionSelect::Output => 0b001,
            FunctionSelect::AF0 => 0b100,
            FunctionSelect::AF1 => 0b101,
            FunctionSelect::AF2 => 0b110,
            FunctionSelect::AF3 => 0b111,
            FunctionSelect::AF4 => 0b011,
            FunctionSelect::AF5 => 0b010,
        }
    }

    /// The code written into a pin's function-select field.
    pub fn bits(self) -> (r: u32)
        ensures
            r == self.spec_bits(),
            r < 8,
    {
        match self {
            FunctionSelect::Input => 0b000,
            FunctionSelect::Output => 0b001,
            FunctionSelect::AF0 => 0b100,
            FunctionSelect::AF1 => 0b101,
            FunctionSelect::AF2 => 0b110,
            FunctionSelect::AF3 => 0b111,
            FunctionSelect::AF4 => 0b011,
            FunctionSelect::AF5 => 0b010,
        }
    }
}

/// One of the six alternate functions of a pin, by index; valid from 0 to 5.
#[derive(Clone, Copy, PartialEq, Eq, Structural, Debug)]
pub struct AltFunction(pub u8);

impl AltFunction {
    pub open spec fn spec_select(self) -> FunctionSelect {
        if self.0 == 0 {
            FunctionSelect::AF0
        } else if self.0 == 1 {
            FunctionSelect::AF1
        } else if self.0 == 2 {
            FunctionSelect::AF2
        } else if self.0 == 3 {
            FunctionSelect::AF3
        } else if self.0 == 4 {
            FunctionSelect::AF4
        } else {
            FunctionSelect::AF5
        }
    }

    /// The function-select code of this alternate function.
    pub fn select(self) -> (r: FunctionSelect)
        requires
            self.0 <= 5,
        ensures
            r == self.spec_select(),
    {
        match self.0 {
            0 => FunctionSelect::AF0,
            1 => FunctionSelect::AF1,
            2 => FunctionSelect::AF2,
            3 => FunctionSelect::AF3,
            4 => FunctionSelect::AF4,
            _ => FunctionSelect::AF5,
        }
    }
}

/// Word index of the function-select register that holds a pin's field.
pub open spec fn fsel_word(pin: u8) -> usize {
    (GPFSEL0 + pin / 10) as usize
}

/// Bit offset of a pin's 3-bit field within its function-select register.
pub open spec fn fsel_shift(pin: u8) -> u32 {
    ((pin % 10) * 3) as u32
}

/// The 3-bit field at `shift` of `w`.
pub open spec fn field(w: u32, shift: u32) -> u32 {
    (w >> shift) & 7
}

/// `w` with its 3-bit field at `shift` replaced by `bits`.
pub open spec fn with_field(w: u32, shift: u32, bits: u32) -> u32 {
    (w & !(7u32 << shift)) | (bits << shift)
}

/// The accesses that set a pin's function to `f` when its function-select
/// register loads as `v`: that load, then one store of `v` with only the
/// pin's field replaced.
pub open spec fn fsel_events(pin: u8, f: FunctionSelect, v: u32) -> Seq<Event> {
    seq![
        Event::Load(Bank::Gpio, fsel_word(pin), v),
        Event::Store(Bank::Gpio, fsel_word(pin), with_field(v, fsel_shift(pin), f.spec_bits())),
    ]
}

/// The single bit that drives a pin within its 32-pin group.
pub open spec fn pin_mask(pin: u8) -> u32 {
    1u32 << ((pin % 32) as u32)
}

/// Index of the 32-pin group that holds a pin.
pub open spec fn group(pin: u8) -> int {
    (pin / 32) as int
}

/// Word index of the set register of a pin's group.
pub open spec fn set_word(pin: u8) -> usize {
    (GPSET0 + pin / 32) as usize
}

/// Word index of the clear register of a pin's group.
pub open spec fn clear_word(pin: u8) -> usize {
    (GPCLR0 + pin / 32) as usize
}

/// Word index of the level register of a pin's group.
pub open spec fn level_word(pin: u8) -> usize {
    (GPLEV0 + pin / 32) as usize
}

/// Output level of group `g` after access `e`. A store to the group's set
/// register drives high each pin whose bit is 1, a store to its clear
/// register drives low each such pin, and a 0 bit has no effect; any other
/// access leaves the level.
pub open spec fn level_after(level: u32, g: int, e: Event) -> u32 {
    match e {
        Event::Store(Bank::Gpio, i, m) => if i == GPSET0 + g {
            level | m
        } else if i == GPCLR0 + g {
            level & !m
        } else {
            level
        },
        _ => level,
    }
}

/// Whether bit `k` of `w` is set.
pub open spec fn bit(w: u32, k: u32) -> bool {
    (w >> k) & 1 == 1
}

/// A GPIO pin in configuration state `State`.
pub struct Gpio<State> {
    pin: u8,
    state: PhantomData<State>,
}

impl<State> Gpio<State> {
    #[verifier::type_invariant]
    spec fn inv(self) -> bool {
        self.pin <= MAX_PIN
    }

    /// The pin's number.
    pub closed spec fn number(self) -> u8 {
        self.pin
    }

    /// The pin's number.
    pub fn pin(&self) -> (r: u8)
        ensures
            r == self.number(),
            r <= MAX_PIN,
    {
        proof {
            use_type_invariant(self);
        }
        self.pin
    }

    fn transition<S>(self) -> (r: Gpio<S>)
        ensures
            r.number() == self.number(),
    {
        proof {
            use_type_invariant(&self);
        }
        Gpio { pin: self.pin, state: PhantomData }
    }
}

impl Gpio<Uninitialised> {
    /// An unconfigured handle on pin `pin`; the pin number must be at most 53.
    pub fn new(pin: u8) -> (r: Gpio<Uninitialised>)
        requires
            pin <= MAX_PIN,
        ensures
            r.number() == pin,
    {
        Gpio { pin, state: PhantomData }
    }

    /// Configures the pin as an output.
    pub fn as_output(self, board: &mut Board) -> (r: Gpio<Output>)
        ensures
            r.number() == self.number(),
            final(board).log() == old(board).log() + fsel_events(
                self.number(),
                FunctionSelect::Output,
                fresh(old(board).log(), final(board).log(), 0),
            ),
    {
        self.update_pin_fsel(board, FunctionSelect::Output);
        self.transition()
    }

    /// Configures the pin as an input.
    pub fn as_input(self, board: &mut Board) -> (r: Gpio<Input>)
        ensures
            r.number() == self.number(),
            final(board).log() == old(board).log() + fsel_events(
                self.number(),
                FunctionSelect::Input,
                fresh(old(board).log(), final(board).log(), 0),
            ),
    {
        self.update_pin_fsel(board, FunctionSelect::Input);
        self.transition()
    }

    /// Hands the pin to alternate function `f`, whose index must be at most 5.
    pub fn as_alt(self, board: &mut Board, f: AltFunction) -> (r: Gpio<Alt>)
        requires
            f.0 <= 5,
        ensures
            r.number() == self.number(),
            final(board).log() == old(board).log() + fsel_events(
                self.number(),
                f.spec_select(),
                fresh(old(board).log(), final(board).log(), 0),
            ),
    {
        self.update_pin_fsel(board, f.select());
        self.transition()
    }

    /// Read-modify-write of the pin's 3-bit function-select field: one load
    /// of its register, then one store that keeps the fields of the other
    /// pins.
    fn update_pin_fsel(&self, board: &mut Board, f: FunctionSelect)
        ensures
            final(board).log() == old(board).log() + fsel_events(
                self.number(),
                f,
                fresh(old(board).log(), final(board).log(), 0),
            ),
    {
        proof {
            use_type_invariant(self);
        }
        let index: usize = GPFSEL0 + (self.pin / 10) as usize;
        let shift: u32 = ((self.pin % 10) as u32) * 3;
        let current = board.load(Bank::Gpio, index);
        let bits = f.bits();
        let updated = (current & !(7u32 << shift)) | (bits << shift);
        board.store(Bank::Gpio, index, updated);
        assert(board.log() =~= old(board).log() + fsel_events(self.number(), f, current));
    }
}

impl Gpio<Output> {
    /// Drives the pin high: one store of its single bit to the set register
    /// of its group, and no other access.
    pub fn set(&mut self, board: &mut Board)
        ensures
            *final(self) == *old(self),
            final(board).log() == old(board).log().push(
                Event::Store(Bank::Gpio, set_word(old(self).number()), pin_mask(old(self).number())),
            ),
    {
        proof {
            use_type_invariant(&*self);
        }
        let index: usize = GPSET0 + (self.pin / 32) as usize;
        let shift: u32 = (self.pin % 32) as u32;
        board.store(Bank::Gpio, index, 1u32 << shift);
    }

    /// Drives the pin low: one store of its single bit to the clear register
    /// of its group, and no other access.
    pub fn clear(&mut self, board: &mut Board)
        ensures
            *final(self) == *old(self),
            final(board).log() == old(board).log().push(
                Event::Store(Bank::Gpio, clear_word(old(self).number()), pin_mask(old(self).number())),
            ),
    {
        proof {
            use_type_invariant(&*self);
        }
        let index: usize = GPCLR0 + (self.pin / 32) as usize;
        let shift: u32 = (self.pin % 32) as u32;
        board.store(Bank::Gpio, index, 1u32 << shift);
    }
}

impl Gpio<Input> {
    /// The live logic level of the pin: one load of the level register of
    /// its group, and the pin's bit of the value loaded.
    pub fn read_level(&mut self, board: &mut Board) -> (r: bool)
        ensures
            *final(self) == *old(self),
            final(board).log() == old(board).log().push(
                Event::Load(
                    Bank::Gpio,
                    level_word(old(self).number()),
                    fresh(old(board).log(), final(board).log(), 0),
                ),
            ),
            r == bit(fresh(old(board).log(), final(board).log(), 0), (old(self).number() % 32) as u32),
    {
        proof {
            use_type_invariant(&*self);
        }
        let index: usize = GPLEV0 + (self.pin / 32) as usize;
        let shift: u32 = (self.pin % 32) as u32;
        let level = board.load(Bank::Gpio, index);
        (level >> shift) & 1 == 1
    }
}

proof fn lemma_with_field_bits(w: u32, s1: u32, s2: u32, b: u32)
    requires
        s1 <= 27,
        s2 <= 27,
        s1 % 3 == 0,
        s2 % 3 == 0,
        b < 8,
    ensures
        with_field(with_field(w, s1, b), s1, b) == with_field(w, s1, b),
        field(with_field(w, s1, b), s1) == b,
        s1 != s2 ==> field(with_field(w, s1, b), s2) == field(w, s2),
{
    assert(with_field(with_field(w, s1, b), s1, b) == with_field(w, s1, b)) by (bit_vector)
        requires
            s1 <= 27,
            b < 8,
    ;
    assert(field(with_field(w, s1, b), s1) == b) by (bit_vector)
        requires
            s1 <= 27,
            b < 8,
    ;
    assert(s1 != s2 ==> field(with_field(w, s1, b), s2) == field(w, s2)) by (bit_vector)
        requires
            s1 <= 27,
            s2 <= 27,
            s1 % 3 == 0,
            s2 % 3 == 0,
            b < 8,
    ;
}

/// Setting a pin's function a second time stores the same register value
/// as setting it once: when the second read-modify-write loads the value
/// the first one stored, it stores that value again.
pub proof fn lemma_fsel_idempotent(pin: u8, f: FunctionSelect, v: u32)
    requires
        pin <= MAX_PIN,
    ensures
        fsel_events(pin, f, value_of_store(fsel_events(pin, f, v)))[1] == fsel_events(pin, f, v)[1],
{
    lemma_with_field_bits(v, fsel_shift(pin), fsel_shift(pin), f.spec_bits());
}

/// The value that the store of a read-modify-write writes.
pub open spec fn value_of_store(events: Seq<Event>) -> u32 {
    crate::mmio::value_of(events[1])
}

/// Setting a pin's function stores the function's code in that pin's field
/// and keeps, from the value loaded, the field of every other pin of the
/// same register.
pub proof fn lemma_fsel_fields(pin: u8, f: FunctionSelect, v: u32, other: u8)
    requires
        pin <= MAX_PIN,
        other <= MAX_PIN,
        fsel_word(other) == fsel_word(pin),
    ensures
        field(value_of_store(fsel_events(pin, f, v)), fsel_shift(pin)) == f.spec_bits(),
        other != pin ==> field(value_of_store(fsel_events(pin, f, v)), fsel_shift(other)) == field(
            v,
            fsel_shift(other),
        ),
{
    lemma_with_field_bits(v, fsel_shift(pin), fsel_shift(other), f.spec_bits());
}

/// Driving an output pin high and then low changes exactly one bit of its
/// group's output level: each of the two stores that `set` and `clear` make
/// carries a word with that single bit set, the pin's level goes high and
/// then low, and every other pin of the group keeps its level throughout.
pub proof fn lemma_set_clear_single_bit(pin: u8, level: u32)
    requires
        pin <= MAX_PIN,
    ensures
        forall|k: u32| k < 32 ==> (#[trigger] bit(pin_mask(pin), k) <==> k == (pin % 32) as u32),
        ({
            let high = level_after(
                level,
                group(pin),
                Event::Store(Bank::Gpio, set_word(pin), pin_mask(pin)),
            );
            let low = level_after(
                high,
                group(pin),
                Event::Store(Bank::Gpio, clear_word(pin), pin_mask(pin)),
            );
            &&& bit(high, (pin % 32) as u32)
            &&& !bit(low, (pin % 32) as u32)
            &&& forall|k: u32|
                k < 32 && k != (pin % 32) as u32 ==> #[trigger] bit(high, k) == bit(level, k) && bit(
                    low,
                    k,
                ) == bit(level, k)
        }),
{
    let s = (pin % 32) as u32;
    let high = level_after(level, group(pin), Event::Store(Bank::Gpio, set_word(pin), pin_mask(pin)));
    assert(high == level | (1u32 << s));
    assert(level_after(high, group(pin), Event::Store(Bank::Gpio, clear_word(pin), pin_mask(pin)))
        == high & !(1u32 << s));
    assert(forall|k: u32| k < 32 ==> (#[trigger] bit(1u32 << s, k) <==> k == s)) by (bit_vector)
        requires
            s < 32,
    ;
    assert(bit(level | (1u32 << s), s) && !bit((level | (1u32 << s)) & !(1u32 << s), s))
        by (bit_vector)
        requires
            s < 32,
    ;
    assert(forall|k: u32|
        k < 32 && k != s ==> #[trigger] bit(level | (1u32 << s), k) == bit(level, k) && bit(
            (level | (1u32 << s)) & !(1u32 << s),
            k,
        ) == bit(level, k)) by (bit_vector)
        requires
            s < 32,
    ;
}

} // verus!
