use vstd::prelude::*;

verus! {

pub const CARRY: u8 = 0b0000_0001;

pub const ZERO: u8 = 0b0000_0010;

pub const INTERRUPT_DISABLE: u8 = 0b0000_0100;

pub const DECIMAL_MODE: u8 = 0b0000_1000;

pub const BREAK_COMMAND: u8 = 0b0001_0000;

pub const OVERFLOW: u8 = 0b0010_0000;

pub const NEGATIVE: u8 = 0b0100_0000;

/// Whether the bit(s) of `flag` are set in the packed byte `status`.
pub open spec fn flag_set(status: u8, flag: u8) -> bool {
    status & flag != 0
}

/// `status` with the bit of `flag` set when `on` holds and cleared otherwise;
/// every other bit is kept.
pub open spec fn with_flag(status: u8, flag: u8, on: bool) -> u8 {
    if on {
        status | flag
    } else {
        status & !flag
    }
}

/// Whether a byte counts as negative: its bit 7 is set.
pub open spec fn is_negative(value: u8) -> bool {
    value & 0x80 != 0
}

/// `status` with zero and negative taken from `value`.
pub open spec fn with_zero_negative(status: u8, value: u8) -> u8 {
    with_flag(with_flag(status, ZERO, value == 0), NEGATIVE, is_negative(value))
}

/// The single-bit flags, each a distinct bit.
pub open spec fn is_flag(flag: u8) -> bool {
    flag == CARRY || flag == ZERO || flag == INTERRUPT_DISABLE || flag == DECIMAL_MODE
        || flag == BREAK_COMMAND || flag == OVERFLOW || flag == NEGATIVE
}

proof fn lemma_bits(status: u8, flag: u8, other: u8)
    by (bit_vector)
    ensures
        flag != 0 ==> (status | flag) & flag != 0,
        (status & !flag) & flag == 0,
        flag & other == 0 ==> (status | flag) & other == status & other,
        flag & other == 0 ==> (status & !flag) & other == status & other,
{
}

/// Setting or clearing one flag decides that flag and leaves every other
/// flag as it was.
pub proof fn lemma_with_flag(status: u8, flag: u8, on: bool, other: u8)
    requires
        is_flag(flag),
        is_flag(other),
    ensures
        flag_set(with_flag(status, flag, on), flag) == on,
        other != flag ==> flag_set(with_flag(status, flag, on), other) == flag_set(status, other),
{
    lemma_bits(status, flag, other);
    if other != flag {
        assert(flag & other == 0) by (bit_vector)
            requires
                is_flag(flag),
                is_flag(other),
                other != flag,
        ;
    }
}

/// After zero and negative are taken from `value`, those two flags report
/// `value` and every other flag is as it was.
pub proof fn lemma_with_zero_negative(status: u8, value: u8, other: u8)
    requires
        is_flag(other),
    ensures
        flag_set(with_zero_negative(status, value), ZERO) == (value == 0),
        flag_set(with_zero_negative(status, value), NEGATIVE) == is_negative(value),
        other != ZERO && other != NEGATIVE ==> flag_set(with_zero_negative(status, value), other)
            == flag_set(status, other),
{
    let inner = with_flag(status, ZERO, value == 0);
    lemma_with_flag(status, ZERO, value == 0, other);
    lemma_with_flag(inner, NEGATIVE, is_negative(value), other);
    lemma_with_flag(status, ZERO, value == 0, NEGATIVE);
    lemma_with_flag(inner, NEGATIVE, is_negative(value), ZERO);
}

/// The packed condition codes of the processor.
pub struct ProcessStatus {
    pub status: u8,
}

impl ProcessStatus {
    pub fn new() -> (r: Self)
        ensures
            r.status == 0,
    {
        ProcessStatus { status: 0 }
    }

    pub fn set_carry_flag(&mut self)
        ensures
            final(self).status == old(self).status | CARRY,
    {
        self.status = self.status | CARRY;
    }

    pub fn set_zero_flag(&mut self)
        ensures
            final(self).status == old(self).status | ZERO,
    {
        self.status = self.status | ZERO;
    }

    pub fn set_interrupt_disable_flag(&mut self)
        ensures
            final(self).status == old(self).status | INTERRUPT_DISABLE,
    {
        self.status = self.status | INTERRUPT_DISABLE;
    }

    pub fn set_decimal_mode_flag(&mut self)
        ensures
            final(self).status == old(self).status | DECIMAL_MODE,
    {
        self.status = self.status | DECIMAL_MODE;
    }

    pub fn set_break_command(&mut self)
        ensures
            final(self).status == old(self).status | BREAK_COMMAND,
    {
        self.status = self.status | BREAK_COMMAND;
    }

    pub fn set_overflow_flag(&mut self)
        ensures
            final(self).status == old(self).status | OVERFLOW,
    {
        self.status = self.status | OVERFLOW;
    }

    pub fn set_negative_flag(&mut self)
        ensures
            final(self).status == old(self).status | NEGATIVE,
    {
        self.status = self.status | NEGATIVE;
    }

    pub fn clear_carry_flag(&mut self)
        ensures
            final(self).status == old(self).status & !CARRY,
    {
        self.status = self.status & !CARRY;
    }

    pub fn clear_zero_flag(&mut self)
        ensures
            final(self).status == old(self).status & !ZERO,
    {
        self.status = self.status & !ZERO;
    }

    pub fn clear_interrupt_disable_flag(&mut self)
        ensures
            final(self).status == old(self).status & !INTERRUPT_DISABLE,
    {
        self.status = self.status & !INTERRUPT_DISABLE;
    }

    pub fn clear_decimal_mode_flag(&mut self)
        ensures
            final(self).status == old(self).status & !DECIMAL_MODE,
    {
        self.status = self.status & !DECIMAL_MODE;
    }

    pub fn clear_break_command(&mut self)
        ensures
            final(self).status == old(self).status & !BREAK_COMMAND,
    {
        self.status = self.status & !BREAK_COMMAND;
    }

    pub fn clear_overflow_flag(&mut self)
        ensures
            final(self).status == old(self).status & !OVERFLOW,
    {
        self.status = self.status & !OVERFLOW;
    }

    pub fn clear_negative_flag(&mut self)
        ensures
            final(self).status == old(self).status & !NEGATIVE,
    {
        self.status = self.status & !NEGATIVE;
    }

    pub fn get_carry_flag(&self) -> (r: bool)
        ensures
            r == flag_set(self.status, CARRY),
    {
        self.status & CARRY != 0
    }

    pub fn get_zero_flag(&self) -> (r: bool)
        ensures
            r == flag_set(self.status, ZERO),
    {
        self.status & ZERO != 0
    }

    pub fn get_interrupt_disable_flag(&self) -> (r: bool)
        ensures
            r == flag_set(self.status, INTERRUPT_DISABLE),
    {
        self.status & INTERRUPT_DISABLE != 0
    }

    pub fn get_decimal_mode_flag(&self) -> (r: bool)
        ensures
            r == flag_set(self.status, DECIMAL_MODE),
    {
        self.status & DECIMAL_MODE != 0
    }

    pub fn get_break_command(&self) -> (r: bool)
        ensures
            r == flag_set(self.status, BREAK_COMMAND),
    {
        self.status & BREAK_COMMAND != 0
    }

    pub fn get_overflow_flag(&self) -> (r: bool)
        ensures
            r == flag_set(self.status, OVERFLOW),
    {
        self.status & OVERFLOW != 0
    }

    pub fn get_negative_flag(&self) -> (r: bool)
        ensures
            r == flag_set(self.status, NEGATIVE),
    {
        self.status & NEGATIVE != 0
    }

    /// The whole packed byte, undefined bits included.
    pub fn raw(&self) -> (r: u8)
        ensures
            r == self.status,
    {
        self.status
    }

    /// Replaces the whole packed byte.
    pub fn set_raw(&mut self, value: u8)
        ensures
            final(self).status == value,
    {
        self.status = value;
    }

    /// Sets `flag` when `on` holds and clears it otherwise.
    pub fn assign(&mut self, flag: u8, on: bool)
        ensures
            final(self).status == with_flag(old(self).status, flag, on),
    {
        if on {
            self.status = self.status | flag;
        } else {
            self.status = self.status & !flag;
        }
    }

    /// Sets zero when `value` is 0 and negative when its bit 7 is set,
    /// clearing each otherwise.
    pub fn update_zero_and_negative(&mut self, value: u8)
        ensures
            final(self).status == with_zero_negative(old(self).status, value),
    {
        self.assign(ZERO, value == 0);
        self.assign(NEGATIVE, value & 0x80 != 0);
    }
}

} // verus!
