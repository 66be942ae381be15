//! The fields of the pin configuration word: where each lies, and what reading and replacing one means.
use vstd::prelude::*;
use crate::bits::{apart, fits, get_bits, put_bits, span_mask};

verus! {

/// The fields of a pin configuration word.
pub enum Field {
    /// Input enable flag, bit 0.
    InputEnable,
    /// Schmitt trigger enable flag, bit 1.
    Schmitt,
    /// Drive strength, bits 2..4.
    Drive,
    /// Pull direction, bits 4..6.
    Pull,
    /// Output enable flag, bit 6.
    OutputEnable,
    /// Alternate function, bits 8..13.
    Function,
    /// Interrupt mode, bits 16..20.
    InterruptMode,
    /// Clear-interrupt strobe (write only), bit 20.
    ClearInterrupt,
    /// Pending interrupt status (read only), bit 21.
    HasInterrupt,
    /// Interrupt mask flag, bit 22.
    InterruptMask,
    /// Output level status (read only), bit 24.
    Output,
    /// Set strobe, drives the pin high (write only), bit 25.
    SetStrobe,
    /// Clear strobe, drives the pin low (write only), bit 26.
    ClearStrobe,
    /// Input level status (read only), bit 28.
    Input,
    /// GPIO mode, bits 30..32.
    Mode,
}

impl Field {
    /// Position of the field's lowest bit.
    pub open spec fn spec_offset(self) -> u32 {
        match self {
            Field::InputEnable => 0,
            Field::Schmitt => 1,
            Field::Drive => 2,
            Field::Pull => 4,
            Field::OutputEnable => 6,
            Field::Function => 8,
            Field::InterruptMode => 16,
            Field::ClearInterrupt => 20,
            Field::HasInterrupt => 21,
            Field::InterruptMask => 22,
            Field::Output => 24,
            Field::SetStrobe => 25,
            Field::ClearStrobe => 26,
            Field::Input => 28,
            Field::Mode => 30,
        }
    }

    /// Number of bits of the field.
    pub open spec fn spec_width(self) -> u32 {
        match self {
            Field::Drive | Field::Pull | Field::Mode => 2,
            Field::Function => 5,
            Field::InterruptMode => 4,
            _ => 1,
        }
    }

    /// The bits of the word that belong to the field.
    pub open spec fn mask(self) -> u32 {
        span_mask(self.spec_offset(), self.spec_width())
    }

    pub(crate) fn offset(&self) -> (r: u32)
        ensures
            r == self.spec_offset(),
    {
        match self {
            Field::InputEnable => 0,
            Field::Schmitt => 1,
            Field::Drive => 2,
            Field::Pull => 4,
            Field::OutputEnable => 6,
            Field::Function => 8,
            Field::InterruptMode => 16,
            Field::ClearInterrupt => 20,
            Field::HasInterrupt => 21,
            Field::InterruptMask => 22,
            Field::Output => 24,
            Field::SetStrobe => 25,
            Field::ClearStrobe => 26,
            Field::Input => 28,
            Field::Mode => 30,
        }
    }

    pub(crate) fn width(&self) -> (r: u32)
        ensures
            r == self.spec_width(),
    {
        match self {
            Field::Drive | Field::Pull | Field::Mode => 2,
            Field::Function => 5,
            Field::InterruptMode => 4,
            _ => 1,
        }
    }
}

/// Every field lies inside the word.
pub proof fn lemma_field_fits(f: Field)
    ensures
        fits(f.spec_offset(), f.spec_width()),
{
}

/// Distinct fields share no bit.
pub proof fn lemma_fields_apart(f1: Field, f2: Field)
    requires
        f1 != f2,
    ensures
        apart(f1.spec_offset(), f1.spec_width(), f2.spec_offset(), f2.spec_width()),
{
}

/// The value held in field `f` of the word `w`.
pub open spec fn field(w: u32, f: Field) -> u32 {
    get_bits(w, f.spec_offset(), f.spec_width())
}

/// The word `w` with field `f` replaced by the low bits of `x`, every other bit
/// kept.
pub open spec fn with_field(w: u32, f: Field, x: u32) -> u32 {
    put_bits(w, f.spec_offset(), f.spec_width(), x)
}

} // verus!
