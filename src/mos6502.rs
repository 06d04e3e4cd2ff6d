use vstd::prelude::*;

verus! {

/// Bit index of the carry flag in the status word.
pub const CARRY_BIT: u8 = 0;

/// Bit index of the zero flag.
pub const ZERO_BIT: u8 = 1;

/// Bit index of the interrupt-disable flag.
pub const INTERRUPT_DISABLE_BIT: u8 = 2;

/// Bit index of the decimal-mode flag.
pub const DECIMAL_MODE_BIT: u8 = 3;

/// Bit index of the break flag.
pub const BREAK_BIT: u8 = 4;

/// Bit index of the unused bit, conventionally 1.
pub const UNUSED_BIT: u8 = 5;

/// Bit index of the overflow flag.
pub const OVERFLOW_BIT: u8 = 6;

/// Bit index of the negative flag.
pub const NEGATIVE_BIT: u8 = 7;

/// Status word after power-on: the unused bit and interrupt-disable set.
pub const STATUS_POWER_ON: u8 = 0x24;

/// Bit `k` of the status word `w`.
pub open spec fn bit(w: u8, k: u8) -> bool {
    (w >> k) & 1u8 == 1u8
}

/// The word `w` with bit `k` forced to `v`, all other bits kept.
pub open spec fn with_bit(w: u8, k: u8, v: bool) -> u8 {
    if v {
        w | (1u8 << k)
    } else {
        w & !(1u8 << k)
    }
}

/// Setting one bit changes that bit to the given value and no other bit.
pub proof fn lemma_with_bit(w: u8, k: u8, v: bool)
    requires
        k < 8,
    ensures
        forall|i: u8| i < 8 ==> #[trigger] bit(with_bit(w, k, v), i) == if i == k {
            v
        } else {
            bit(w, i)
        },
{
    if v {
        assert(forall|i: u8| i < 8 ==> ((#[trigger] ((w | (1u8 << k)) >> i)) & 1u8 == 1u8 <==> (i
            == k || (w >> i) & 1u8 == 1u8))) by (bit_vector)
            requires
                k < 8,
        ;
    } else {
        assert(forall|i: u8| i < 8 ==> ((#[trigger] ((w & !(1u8 << k)) >> i)) & 1u8 == 1u8 <==> (i
            != k && (w >> i) & 1u8 == 1u8))) by (bit_vector)
            requires
                k < 8,
        ;
    }
}

/// Setting flag `f` of a status word and reading back any other flag `g`
/// gives the value that `g` had before.
pub proof fn lemma_status_bit_orthogonality(w: u8, f: u8, g: u8, v: bool)
    requires
        f < 8,
        g < 8,
        f != g,
    ensures
        bit(with_bit(w, f, v), g) == bit(w, g),
        bit(with_bit(w, f, v), f) == v,
{
    lemma_with_bit(w, f, v);
}

/// The packed 8-bit processor status word.
#[derive(Clone, Copy, Debug)]
pub struct Mos6502StatusBits(u8);

impl View for Mos6502StatusBits {
    type V = u8;

    closed spec fn view(&self) -> u8 {
        self.0
    }
}

impl Default for Mos6502StatusBits {
    fn default() -> (r: Self)
        ensures
            r@ == STATUS_POWER_ON,
    {
        Mos6502StatusBits(STATUS_POWER_ON)
    }
}

impl Mos6502StatusBits {
    /// Sets or clears the bit at index `k`, leaving the other bits as they are.
    fn set_flag(&mut self, k: u8, value: bool)
        requires
            k < 8,
        ensures
            final(self)@ == with_bit(old(self)@, k, value),
            forall|i: u8| i < 8 ==> #[trigger] bit(final(self)@, i) == if i == k {
                value
            } else {
                bit(old(self)@, i)
            },
    {
        proof {
            lemma_with_bit(self.0, k, value);
        }
        if value {
            self.0 = self.0 | (1u8 << k);
        } else {
            self.0 = self.0 & !(1u8 << k);
        }
    }

    /// Reads the bit at index `k`.
    fn flag(&self, k: u8) -> (r: bool)
        requires
            k < 8,
        ensures
            r == bit(self@, k),
    {
        (self.0 >> k) & 1u8 == 1u8
    }

    /// The whole status word.
    pub fn get_bits(&self) -> (r: u8)
        ensures
            r == self@,
    {
        self.0
    }

    /// Overwrites the whole status word.
    pub fn set_bits(&mut self, value: u8)
        ensures
            final(self)@ == value,
    {
        self.0 = value;
    }

    /// Whether the carry flag is set.
    pub fn get_carry(&self) -> (r: bool)
        ensures
            r == bit(self@, CARRY_BIT),
    {
        self.flag(CARRY_BIT)
    }

    /// Sets the carry flag to `value`; every other bit is kept.
    pub fn set_carry(&mut self, value: bool)
        ensures
            final(self)@ == with_bit(old(self)@, CARRY_BIT, value),
            forall|i: u8| i < 8 ==> #[trigger] bit(final(self)@, i) == if i == CARRY_BIT {
                value
            } else {
                bit(old(self)@, i)
            },
    {
        self.set_flag(CARRY_BIT, value);
    }

    /// Whether the zero flag is set.
    pub fn get_zero(&self) -> (r: bool)
        ensures
            r == bit(self@, ZERO_BIT),
    {
        self.flag(ZERO_BIT)
    }

    /// Sets the zero flag to `value`; every other bit is kept.
    pub fn set_zero(&mut self, value: bool)
        ensures
            final(self)@ == with_bit(old(self)@, ZERO_BIT, value),
            forall|i: u8| i < 8 ==> #[trigger] bit(final(self)@, i) == if i == ZERO_BIT {
                value
            } else {
                bit(old(self)@, i)
            },
    {
        self.set_flag(ZERO_BIT, value);
    }

    /// Whether the interrupt disable flag is set.
    pub fn get_interrupt_disable(&self) -> (r: bool)
        ensures
            r == bit(self@, INTERRUPT_DISABLE_BIT),
    {
        self.flag(INTERRUPT_DISABLE_BIT)
    }

    /// Sets the interrupt disable flag to `value`; every other bit is kept.
    pub fn set_interrupt_disable(&mut self, value: bool)
        ensures
            final(self)@ == with_bit(old(self)@, INTERRUPT_DISABLE_BIT, value),
            forall|i: u8| i < 8 ==> #[trigger] bit(final(self)@, i) == if i == INTERRUPT_DISABLE_BIT {
                value
            } else {
                bit(old(self)@, i)
            },
    {
        self.set_flag(INTERRUPT_DISABLE_BIT, value);
    }

    /// Whether the decimal mode flag is set.
    pub fn get_decimal_mode(&self) -> (r: bool)
        ensures
            r == bit(self@, DECIMAL_MODE_BIT),
    {
        self.flag(DECIMAL_MODE_BIT)
    }

    /// Sets the decimal mode flag to `value`; every other bit is kept.
    pub fn set_decimal_mode(&mut self, value: bool)
        ensures
            final(self)@ == with_bit(old(self)@, DECIMAL_MODE_BIT, value),
            forall|i: u8| i < 8 ==> #[trigger] bit(final(self)@, i) == if i == DECIMAL_MODE_BIT {
                value
            } else {
                bit(old(self)@, i)
            },
    {
        self.set_flag(DECIMAL_MODE_BIT, value);
    }

    /// Whether the break flag is set.
    pub fn get_break(&self) -> (r: bool)
        ensures
            r == bit(self@, BREAK_BIT),
    {
        self.flag(BREAK_BIT)
    }

    /// Sets the break flag to `value`; every other bit is kept.
    pub fn set_break(&mut self, value: bool)
        ensures
            final(self)@ == with_bit(old(self)@, BREAK_BIT, value),
            forall|i: u8| i < 8 ==> #[trigger] bit(final(self)@, i) == if i == BREAK_BIT {
                value
            } else {
                bit(old(self)@, i)
            },
    {
        self.set_flag(BREAK_BIT, value);
    }

    /// Whether the overflow flag is set.
    pub fn get_overflow(&self) -> (r: bool)
        ensures
            r == bit(self@, OVERFLOW_BIT),
    {
        self.flag(OVERFLOW_BIT)
    }

    /// Sets the overflow flag to `value`; every other bit is kept.
    pub fn set_overflow(&mut self, value: bool)
        ensures
            final(self)@ == with_bit(old(self)@, OVERFLOW_BIT, value),
            forall|i: u8| i < 8 ==> #[trigger] bit(final(self)@, i) == if i == OVERFLOW_BIT {
                value
            } else {
                bit(old(self)@, i)
            },
    {
        self.set_flag(OVERFLOW_BIT, value);
    }

    /// Whether the negative flag is set.
    pub fn get_negative(&self) -> (r: bool)
        ensures
            r == bit(self@, NEGATIVE_BIT),
    {
        self.flag(NEGATIVE_BIT)
    }

    /// Sets the negative flag to `value`; every other bit is kept.
    pub fn set_negative(&mut self, value: bool)
        ensures
            final(self)@ == with_bit(old(self)@, NEGATIVE_BIT, value),
            forall|i: u8| i < 8 ==> #[trigger] bit(final(self)@, i) == if i == NEGATIVE_BIT {
                value
            } else {
                bit(old(self)@, i)
            },
    {
        self.set_flag(NEGATIVE_BIT, value);
    }
}

/// Registers of the 6502 processor.
#[derive(Clone, Copy, Debug)]
pub struct Mos6502Emu {
    /// Accumulator.
    pub a: u8,
    /// X index register.
    pub x: u8,
    /// Y index register.
    pub y: u8,
    /// Stack pointer.
    pub sp: u8,
    /// Program counter.
    pub pc: u16,
    /// Processor status word.
    pub status: Mos6502StatusBits,
}

/// Stack pointer after power-on.
pub const SP_POWER_ON: u8 = 0xfd;

/// Address of the reset vector.
pub const RESET_VECTOR: u16 = 0xfffc;

impl Default for Mos6502Emu {
    fn default() -> (r: Self)
        ensures
            r.a == 0,
            r.x == 0,
            r.y == 0,
            r.sp == SP_POWER_ON,
            r.pc == RESET_VECTOR,
            r.status@ == STATUS_POWER_ON,
    {
        Mos6502Emu {
            a: 0,
            x: 0,
            y: 0,
            sp: SP_POWER_ON,
            pc: RESET_VECTOR,
            status: Mos6502StatusBits::default(),
        }
    }
}

impl Mos6502Emu {
    /// Asserts the reset line. Unlike power-on, this only moves the stack
    /// pointer down by 3, points the program counter at the reset vector and
    /// disables interrupts; every other register and status bit is kept.
    pub fn reset(&mut self)
        ensures
            final(self).a == old(self).a,
            final(self).x == old(self).x,
            final(self).y == old(self).y,
            final(self).sp as int == (old(self).sp as int - 3) % 256,
            final(self).pc == RESET_VECTOR,
            final(self).status@ == with_bit(old(self).status@, INTERRUPT_DISABLE_BIT, true),
            bit(final(self).status@, INTERRUPT_DISABLE_BIT),
            forall|i: u8|
                i < 8 && i != INTERRUPT_DISABLE_BIT ==> #[trigger] bit(final(self).status@, i)
                    == bit(old(self).status@, i),
    {
        self.sp = self.sp.wrapping_sub(3);
        self.pc = RESET_VECTOR;
        self.status.set_interrupt_disable(true);
    }
}

} // verus!
