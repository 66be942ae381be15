//! Laws of the configuration codec, stated over the field model that the
//! accessors of `GpioConfig` are specified with.
use vstd::prelude::*;
use crate::bits::{
    lemma_get_put_apart, lemma_get_put_same, lemma_get_zero, lemma_low_masks, lemma_put_keeps_outside,
    low_mask,
};
use crate::field::{field, lemma_field_fits, lemma_fields_apart, with_field, Field};
use crate::glb::{Drive, Function, GpioConfig, InterruptMode, Mode, Pull};

verus! {

/// A field reads back any value written into it that fits its width.
pub proof fn lemma_field_round_trip(c: GpioConfig, f: Field, x: u32)
    requires
        x <= low_mask(f.spec_width()),
    ensures
        field(with_field(c@, f, x), f) == x,
{
    lemma_field_fits(f);
    lemma_get_put_same(c@, f.spec_offset(), f.spec_width(), x);
}

/// Setting a drive strength on any configuration, then reading it, gives it back.
pub proof fn lemma_drive_round_trip(c: GpioConfig, v: Drive)
    ensures
        Drive::from_code(field(with_field(c@, Field::Drive, v.spec_code()), Field::Drive)) == Some(v),
{
    lemma_low_masks();
    lemma_field_round_trip(c, Field::Drive, v.spec_code());
}

/// Setting a pull direction on any configuration, then reading it, gives it back.
pub proof fn lemma_pull_round_trip(c: GpioConfig, v: Pull)
    ensures
        Pull::from_code(field(with_field(c@, Field::Pull, v.spec_code()), Field::Pull)) == Some(v),
{
    lemma_low_masks();
    lemma_field_round_trip(c, Field::Pull, v.spec_code());
}

/// Setting a mode on any configuration, then reading it, gives it back.
pub proof fn lemma_mode_round_trip(c: GpioConfig, v: Mode)
    ensures
        Mode::from_code(field(with_field(c@, Field::Mode, v.spec_code()), Field::Mode)) == Some(v),
{
    lemma_low_masks();
    lemma_field_round_trip(c, Field::Mode, v.spec_code());
}

/// Setting an interrupt mode on any configuration, then reading it, gives it
/// back.
pub proof fn lemma_interrupt_mode_round_trip(c: GpioConfig, v: InterruptMode)
    ensures
        InterruptMode::from_code(
            field(with_field(c@, Field::InterruptMode, v.spec_code()), Field::InterruptMode),
        ) == Some(v),
{
    lemma_low_masks();
    lemma_field_round_trip(c, Field::InterruptMode, v.spec_code());
}

/// Setting an alternate function on any configuration, then reading it, gives
/// it back.
pub proof fn lemma_function_round_trip(c: GpioConfig, v: Function)
    ensures
        Function::from_code(field(with_field(c@, Field::Function, v.spec_code()), Field::Function))
            == Some(v),
{
    lemma_low_masks();
    lemma_field_round_trip(c, Field::Function, v.spec_code());
}

/// Replacing one field leaves every other field as it was.
pub proof fn lemma_field_independence(c: GpioConfig, f1: Field, f2: Field, x: u32)
    requires
        f1 != f2,
    ensures
        field(with_field(c@, f1, x), f2) == field(c@, f2),
{
    lemma_field_fits(f1);
    lemma_field_fits(f2);
    lemma_fields_apart(f1, f2);
    lemma_get_put_apart(c@, f1.spec_offset(), f1.spec_width(), x, f2.spec_offset(), f2.spec_width());
}

/// Replacing a field leaves every bit outside it as it was, reserved bits
/// included.
pub proof fn lemma_other_bits_kept(c: GpioConfig, f: Field, x: u32)
    ensures
        with_field(c@, f, x) & !f.mask() == c@ & !f.mask(),
{
    lemma_field_fits(f);
    lemma_put_keeps_outside(c@, f.spec_offset(), f.spec_width(), x);
}

/// The raw word zero decodes to: every flag, strobe and status bit clear,
/// `Drive0`, no pull, `Sdh`, `SyncFallingEdge` and `Normal` mode.
pub proof fn lemma_default_decode()
    ensures
        forall|f: Field| #[trigger] field(0, f) == 0,
        Drive::from_code(0) == Some(Drive::Drive0),
        Pull::from_code(0) == Some(Pull::Floating),
        Function::from_code(0) == Some(Function::Sdh),
        InterruptMode::from_code(0) == Some(InterruptMode::SyncFallingEdge),
        Mode::from_code(0) == Some(Mode::Normal),
{
    assert forall|f: Field| #[trigger] field(0, f) == 0 by {
        lemma_field_fits(f);
        lemma_get_zero(f.spec_offset(), f.spec_width());
    }
}

/// Reserved codes decode to no value, so the getters of pull direction,
/// interrupt mode and alternate function do not accept words that hold them.
pub proof fn lemma_reserved_codes_rejected()
    ensures
        Pull::from_code(3) is None,
        forall|code: u32|
            5 <= code <= 7 || 12 <= code <= 15 ==> #[trigger] InterruptMode::from_code(code) is None,
        forall|code: u32|
            12 <= code <= 15 || 28 <= code <= 30 ==> #[trigger] Function::from_code(code) is None,
{
}

/// Setting the set strobe changes no other field: not the clear strobe, not
/// the clear-interrupt strobe, not the mode nor any enumerated field.
pub proof fn lemma_set_strobe_isolation(c: GpioConfig, f: Field)
    requires
        f != Field::SetStrobe,
    ensures
        field(with_field(c@, Field::SetStrobe, 1), f) == field(c@, f),
{
    lemma_field_independence(c, Field::SetStrobe, f, 1);
}

} // verus!
