//! The processor status register: an 8-bit bundle of condition flags.
//!
//! Bit positions are fixed by the hardware: Carry is bit 0, Zero bit 1,
//! InterruptDisable bit 2, DecimalMode bit 3, the two break bits are 4 and 5,
//! Overflow bit 6 and Negative bit 7.

use vstd::prelude::*;

verus! {

pub const CARRY_MASK: u8 = 0x01;

pub const ZERO_MASK: u8 = 0x02;

pub const INTERRUPT_MASK: u8 = 0x04;

pub const DECIMAL_MASK: u8 = 0x08;

pub const BREAK_MASK: u8 = 0x10;

pub const BREAK2_MASK: u8 = 0x20;

pub const OVERFLOW_MASK: u8 = 0x40;

pub const NEGATIVE_MASK: u8 = 0x80;

/// The named flags of the status register, one per bit.
#[derive(Debug, Clone, Copy, PartialEq, Eq, Structural)]
pub enum ProcessorStatusFlags {
    /// Set when the last operation carried out of bit 7 (or, for compares and
    /// right shifts, when no borrow was needed / a one was shifted out).
    CarryFlag,
    /// Set when the result of the last operation was zero.
    ZeroFlag,
    /// While set the processor ignores interrupt requests.
    InterruptDisable,
    /// While set arithmetic would follow binary-coded decimal rules (the mode
    /// is tracked but arithmetic here is always binary).
    DecimalMode,
    /// Set when a break instruction has been executed.
    BreakCommand,
    /// The second, otherwise unused break bit.
    BreakCommand2,
    /// Set when the last arithmetic operation produced an invalid
    /// two's-complement result.
    Overflow,
    /// Set when bit 7 of the last result was one.
    Negative,
}

/// The single bit that a named flag occupies inside the status byte.
pub open spec fn flag_mask(flag: ProcessorStatusFlags) -> u8 {
    match flag {
        ProcessorStatusFlags::CarryFlag => CARRY_MASK,
        ProcessorStatusFlags::ZeroFlag => ZERO_MASK,
        ProcessorStatusFlags::InterruptDisable => INTERRUPT_MASK,
        ProcessorStatusFlags::DecimalMode => DECIMAL_MASK,
        ProcessorStatusFlags::BreakCommand => BREAK_MASK,
        ProcessorStatusFlags::BreakCommand2 => BREAK2_MASK,
        ProcessorStatusFlags::Overflow => OVERFLOW_MASK,
        ProcessorStatusFlags::Negative => NEGATIVE_MASK,
    }
}

/// Whether a named flag is set inside a status byte.
pub open spec fn is_flag_set(status: u8, flag: ProcessorStatusFlags) -> bool {
    status & flag_mask(flag) != 0
}

/// The status byte after the Zero and Negative flags have been refreshed from
/// a freshly written 8-bit value: Zero holds exactly when the value is zero,
/// Negative exactly when its bit 7 is one (that is, when the value is at
/// least 0x80); each of the two is cleared when its condition fails, and no
/// other flag moves.
pub open spec fn zn_status(status: u8, value: u8) -> u8 {
    let with_zero = if value == 0 {
        status | ZERO_MASK
    } else {
        status & !ZERO_MASK
    };
    if value >= 0x80 {
        with_zero | NEGATIVE_MASK
    } else {
        with_zero & !NEGATIVE_MASK
    }
}

/// Setting or clearing one bit leaves every disjoint bit alone.
pub proof fn lemma_mask_ops(s: u8, k: u8, m: u8)
    by (bit_vector)
    requires
        m & k == 0,
    ensures
        (s | k) & m == s & m,
        (s & !k) & m == s & m,
        (s | k) & k == k,
        (s & !k) & k == 0,
{
}

/// Setting a bit makes it one; clearing it makes it zero.
pub proof fn lemma_mask_self(s: u8, k: u8)
    by (bit_vector)
    ensures
        (s | k) & k == k,
        (s & !k) & k == 0,
{
}

/// Two distinct one-bit masks never overlap.
pub proof fn lemma_distinct_bits(a: u8, b: u8)
    by (bit_vector)
    requires
        a == 1 || a == 2 || a == 4 || a == 8 || a == 16 || a == 32 || a == 64 || a == 128,
        b == 1 || b == 2 || b == 4 || b == 8 || b == 16 || b == 32 || b == 64 || b == 128,
        a != b,
    ensures
        a & b == 0,
        b & a == 0,
{
}

/// Every named flag occupies exactly one bit, and distinct flags occupy
/// distinct bits.
pub proof fn lemma_flag_masks(f: ProcessorStatusFlags, g: ProcessorStatusFlags)
    ensures
        flag_mask(f) == 1 || flag_mask(f) == 2 || flag_mask(f) == 4 || flag_mask(f) == 8
            || flag_mask(f) == 16 || flag_mask(f) == 32 || flag_mask(f) == 64 || flag_mask(f)
            == 128,
        f != g ==> flag_mask(f) & flag_mask(g) == 0 && flag_mask(g) & flag_mask(f) == 0,
{
    if f != g {
        lemma_distinct_bits(flag_mask(f), flag_mask(g));
    }
}

/// After the Zero/Negative refresh, Zero reflects "the value is zero",
/// Negative reflects "bit 7 of the value is one", and every other flag keeps
/// the state it had before.
pub proof fn lemma_zn_status(status: u8, value: u8)
    ensures
        is_flag_set(zn_status(status, value), ProcessorStatusFlags::ZeroFlag) <==> value == 0,
        is_flag_set(zn_status(status, value), ProcessorStatusFlags::Negative) <==> value >= 0x80,
        forall|f: ProcessorStatusFlags|
            f != ProcessorStatusFlags::ZeroFlag && f != ProcessorStatusFlags::Negative
                ==> #[trigger] is_flag_set(zn_status(status, value), f) == is_flag_set(status, f),
{
    let with_zero = if value == 0 {
        status | ZERO_MASK
    } else {
        status & !ZERO_MASK
    };
    assert(0x02u8 & 0x80u8 == 0 && 0x80u8 & 0x02u8 == 0) by (bit_vector);
    lemma_mask_self(status, ZERO_MASK);
    lemma_mask_self(with_zero, NEGATIVE_MASK);
    lemma_mask_ops(with_zero, NEGATIVE_MASK, ZERO_MASK);
    assert forall|f: ProcessorStatusFlags|
        f != ProcessorStatusFlags::ZeroFlag && f != ProcessorStatusFlags::Negative
            implies #[trigger] is_flag_set(zn_status(status, value), f) == is_flag_set(
        status,
        f,
    ) by {
        lemma_flag_masks(f, ProcessorStatusFlags::ZeroFlag);
        lemma_flag_masks(f, ProcessorStatusFlags::Negative);
        lemma_mask_ops(status, ZERO_MASK, flag_mask(f));
        lemma_mask_ops(with_zero, NEGATIVE_MASK, flag_mask(f));
    }
}

/// The status register itself: a wrapper around the raw byte.
pub struct ProcessorStatus(pub u8);

fn flag_bit(flag: ProcessorStatusFlags) -> (m: u8)
    ensures
        m == flag_mask(flag),
{
    match flag {
        ProcessorStatusFlags::CarryFlag => CARRY_MASK,
        ProcessorStatusFlags::ZeroFlag => ZERO_MASK,
        ProcessorStatusFlags::InterruptDisable => INTERRUPT_MASK,
        ProcessorStatusFlags::DecimalMode => DECIMAL_MASK,
        ProcessorStatusFlags::BreakCommand => BREAK_MASK,
        ProcessorStatusFlags::BreakCommand2 => BREAK2_MASK,
        ProcessorStatusFlags::Overflow => OVERFLOW_MASK,
        ProcessorStatusFlags::Negative => NEGATIVE_MASK,
    }
}

impl ProcessorStatus {
    /// Turns the given flag on and touches nothing else.
    pub fn set_flag_true(&mut self, flag: ProcessorStatusFlags)
        ensures
            final(self).0 == (old(self).0 | flag_mask(flag)),
            is_flag_set(final(self).0, flag),
            forall|g: ProcessorStatusFlags|
                g != flag ==> #[trigger] is_flag_set(final(self).0, g) == is_flag_set(
                    old(self).0,
                    g,
                ),
    {
        let m = flag_bit(flag);
        self.0 = self.0 | m;
        proof {
            lemma_flag_masks(flag, flag);
            lemma_mask_self(old(self).0, m);
            assert forall|g: ProcessorStatusFlags|
                g != flag implies #[trigger] is_flag_set(self.0, g) == is_flag_set(
                old(self).0,
                g,
            ) by {
                lemma_flag_masks(flag, g);
                lemma_mask_ops(old(self).0, m, flag_mask(g));
            }
        }
    }

    /// Turns the given flag off and touches nothing else.
    pub fn set_flag_false(&mut self, flag: ProcessorStatusFlags)
        ensures
            final(self).0 == (old(self).0 & !flag_mask(flag)),
            !is_flag_set(final(self).0, flag),
            forall|g: ProcessorStatusFlags|
                g != flag ==> #[trigger] is_flag_set(final(self).0, g) == is_flag_set(
                    old(self).0,
                    g,
                ),
    {
        let m = flag_bit(flag);
        self.0 = self.0 & !m;
        proof {
            lemma_flag_masks(flag, flag);
            lemma_mask_self(old(self).0, m);
            assert forall|g: ProcessorStatusFlags|
                g != flag implies #[trigger] is_flag_set(self.0, g) == is_flag_set(
                old(self).0,
                g,
            ) by {
                lemma_flag_masks(flag, g);
                lemma_mask_ops(old(self).0, m, flag_mask(g));
            }
        }
    }

    /// Turns the given flag on or off according to `value`.
    pub fn set_flag(&mut self, flag: ProcessorStatusFlags, value: bool)
        ensures
            final(self).0 == if value {
                old(self).0 | flag_mask(flag)
            } else {
                old(self).0 & !flag_mask(flag)
            },
            is_flag_set(final(self).0, flag) == value,
            forall|g: ProcessorStatusFlags|
                g != flag ==> #[trigger] is_flag_set(final(self).0, g) == is_flag_set(
                    old(self).0,
                    g,
                ),
    {
        if value {
            self.set_flag_true(flag);
        } else {
            self.set_flag_false(flag);
        }
    }

    /// Turns the given flag off. (Despite the name, this has always been a
    /// plain clear, and callers rely on that.)
    pub fn toggle_flag(&mut self, flag: ProcessorStatusFlags)
        ensures
            final(self).0 == (old(self).0 & !flag_mask(flag)),
            !is_flag_set(final(self).0, flag),
            forall|g: ProcessorStatusFlags|
                g != flag ==> #[trigger] is_flag_set(final(self).0, g) == is_flag_set(
                    old(self).0,
                    g,
                ),
    {
        self.set_flag_false(flag);
    }

    /// Whether the given flag is currently set.
    pub fn has_flag_set(&self, flag: ProcessorStatusFlags) -> (r: bool)
        ensures
            r == is_flag_set(self.0, flag),
    {
        let m = flag_bit(flag);
        self.0 & m != 0
    }

    /// Refreshes the Zero and Negative flags from a freshly written value:
    /// Zero is set exactly when the value is zero, Negative exactly when the
    /// value's bit 7 is one; no other flag moves.
    pub fn update_zero_and_negative_flags(&mut self, value: u8)
        ensures
            final(self).0 == zn_status(old(self).0, value),
            is_flag_set(final(self).0, ProcessorStatusFlags::ZeroFlag) <==> value == 0,
            is_flag_set(final(self).0, ProcessorStatusFlags::Negative) <==> value >= 0x80,
            forall|g: ProcessorStatusFlags|
                g != ProcessorStatusFlags::ZeroFlag && g != ProcessorStatusFlags::Negative
                    ==> #[trigger] is_flag_set(final(self).0, g) == is_flag_set(old(self).0, g),
    {
        if value == 0 {
            self.set_flag_true(ProcessorStatusFlags::ZeroFlag);
        } else {
            self.set_flag_false(ProcessorStatusFlags::ZeroFlag);
        }
        if value >= 0x80 {
            self.set_flag_true(ProcessorStatusFlags::Negative);
        } else {
            self.set_flag_false(ProcessorStatusFlags::Negative);
        }
        proof {
            lemma_zn_status(old(self).0, value);
        }
    }

    /// Sets every flag back to zero.
    pub fn reset_flags(&mut self)
        ensures
            final(self).0 == 0,
    {
        self.0 = 0;
    }

    /// The names of the flags currently set, for diagnostics.
    pub fn flags_string(&self) -> String {
        let mut names = String::from_str("");
        if self.has_flag_set(ProcessorStatusFlags::CarryFlag) {
            names.append("CarryFlag, ");
        }
        if self.has_flag_set(ProcessorStatusFlags::ZeroFlag) {
            names.append("ZeroFlag, ");
        }
        if self.has_flag_set(ProcessorStatusFlags::InterruptDisable) {
            names.append("InterruptDisable, ");
        }
        if self.has_flag_set(ProcessorStatusFlags::DecimalMode) {
            names.append("DecimalMode, ");
        }
        if self.has_flag_set(ProcessorStatusFlags::BreakCommand) {
            names.append("BreakCommand, ");
        }
        if self.has_flag_set(ProcessorStatusFlags::BreakCommand2) {
            names.append("BreakCommand2, ");
        }
        if self.has_flag_set(ProcessorStatusFlags::Overflow) {
            names.append("Overflow, ");
        }
        if self.has_flag_set(ProcessorStatusFlags::Negative) {
            names.append("Negative, ");
        }
        names
    }
}

} // verus!
