use bouffalo_glb::glb::{Drive, Function, GpioConfig, InterruptMode, Mode, Pull};

const ALL_FUNCTIONS: [(Function, u32); 25] = [
    (Function::Sdh, 0),
    (Function::Spi0, 1),
    (Function::Flash, 2),
    (Function::I2s, 3),
    (Function::Pdm, 4),
    (Function::I2c0, 5),
    (Function::I2c1, 6),
    (Function::Uart, 7),
    (Function::Emac, 8),
    (Function::Cam, 9),
    (Function::Analog, 10),
    (Function::Gpio, 11),
    (Function::Pwm0, 16),
    (Function::Pwm1, 17),
    (Function::Spi1, 18),
    (Function::I2c2, 19),
    (Function::I2c3, 20),
    (Function::MmUart, 21),
    (Function::DbiB, 22),
    (Function::DbiC, 23),
    (Function::Dpi, 24),
    (Function::JtagLp, 25),
    (Function::JtagM0, 26),
    (Function::JtagD0, 27),
    (Function::ClockOut, 31),
];

const ALL_INTERRUPT_MODES: [(InterruptMode, u32); 9] = [
    (InterruptMode::SyncFallingEdge, 0),
    (InterruptMode::SyncRisingEdge, 1),
    (InterruptMode::SyncLowLevel, 2),
    (InterruptMode::SyncHighLevel, 3),
    (InterruptMode::SyncBothEdges, 4),
    (InterruptMode::AsyncFallingEdge, 8),
    (InterruptMode::AsyncRisingEdge, 9),
    (InterruptMode::AsyncLowLevel, 10),
    (InterruptMode::AsyncHighLevel, 11),
];

const ALL_DRIVES: [(Drive, u32); 4] = [
    (Drive::Drive0, 0),
    (Drive::Drive1, 1),
    (Drive::Drive2, 2),
    (Drive::Drive3, 3),
];

const ALL_MODES: [(Mode, u32); 4] = [
    (Mode::Normal, 0),
    (Mode::SetClear, 1),
    (Mode::Programmable, 2),
    (Mode::BufferedSetClear, 3),
];

const ALL_PULLS: [(Pull, u32); 3] = [(Pull::Floating, 0), (Pull::Up, 1), (Pull::Down, 2)];

#[test]
fn default_is_zero_and_decodes_to_reset_values() {
    let c = GpioConfig::default();
    assert_eq!(c.bits(), 0);
    assert!(!c.is_input_enabled());
    assert!(!c.is_schmitt_enabled());
    assert_eq!(c.drive(), Drive::Drive0);
    assert_eq!(c.pull(), Pull::Floating);
    assert!(!c.is_output_enabled());
    assert_eq!(c.function(), Function::Sdh);
    assert_eq!(c.interrupt_mode(), InterruptMode::SyncFallingEdge);
    assert!(!c.has_interrupt());
    assert!(!c.is_interrupt_masked());
    assert!(!c.output());
    assert!(!c.input());
    assert_eq!(c.mode(), Mode::Normal);
}

#[test]
fn from_bits_and_bits_agree() {
    for raw in [0u32, 1, 0x1234_5678, 0xffff_ffff, 0x8000_0000] {
        assert_eq!(GpioConfig::from_bits(raw).bits(), raw);
    }
}

#[test]
fn flag_setters_touch_one_bit() {
    let zero = GpioConfig::default();
    assert_eq!(zero.enable_input().bits(), 1 << 0);
    assert_eq!(zero.enable_schmitt().bits(), 1 << 1);
    assert_eq!(zero.enable_output().bits(), 1 << 6);
    assert_eq!(zero.mask_interrupt().bits(), 1 << 22);
    assert_eq!(zero.clear_interrupt().bits(), 1 << 20);
    assert_eq!(zero.set().bits(), 1 << 25);
    assert_eq!(zero.clear().bits(), 1 << 26);

    let ones = GpioConfig::from_bits(0xffff_ffff);
    assert_eq!(ones.disable_input().bits(), !(1u32 << 0));
    assert_eq!(ones.disable_schmitt().bits(), !(1u32 << 1));
    assert_eq!(ones.disable_output().bits(), !(1u32 << 6));
    assert_eq!(ones.unmask_interrupt().bits(), !(1u32 << 22));
}

#[test]
fn flag_getters_read_their_bit() {
    let zero = GpioConfig::default();
    assert!(zero.enable_input().is_input_enabled());
    assert!(!zero.enable_input().disable_input().is_input_enabled());
    assert!(zero.enable_schmitt().is_schmitt_enabled());
    assert!(!zero.enable_schmitt().disable_schmitt().is_schmitt_enabled());
    assert!(zero.enable_output().is_output_enabled());
    assert!(!zero.enable_output().disable_output().is_output_enabled());
    assert!(zero.mask_interrupt().is_interrupt_masked());
    assert!(!zero.mask_interrupt().unmask_interrupt().is_interrupt_masked());
}

#[test]
fn status_bits_are_read_from_their_positions() {
    assert!(GpioConfig::from_bits(1 << 24).output());
    assert!(!GpioConfig::from_bits(!(1u32 << 24)).output());
    assert!(GpioConfig::from_bits(1 << 28).input());
    assert!(!GpioConfig::from_bits(!(1u32 << 28)).input());
    assert!(GpioConfig::from_bits(1 << 21).has_interrupt());
    assert!(!GpioConfig::from_bits(!(1u32 << 21)).has_interrupt());
}

#[test]
fn enumerated_fields_round_trip_on_default() {
    let c = GpioConfig::default();
    for (v, _) in ALL_DRIVES {
        assert_eq!(c.set_drive(v).drive(), v);
    }
    for (v, _) in ALL_PULLS {
        assert_eq!(c.set_pull(v).pull(), v);
    }
    for (v, _) in ALL_MODES {
        assert_eq!(c.set_mode(v).mode(), v);
    }
    for (v, _) in ALL_INTERRUPT_MODES {
        assert_eq!(c.set_interrupt_mode(v).interrupt_mode(), v);
    }
    for (v, _) in ALL_FUNCTIONS {
        assert_eq!(c.set_function(v).function(), v);
    }
}

#[test]
fn enumerated_fields_are_written_at_their_offsets() {
    let c = GpioConfig::default();
    for (v, code) in ALL_DRIVES {
        assert_eq!(c.set_drive(v).bits(), code << 2);
    }
    for (v, code) in ALL_PULLS {
        assert_eq!(c.set_pull(v).bits(), code << 4);
    }
    for (v, code) in ALL_FUNCTIONS {
        assert_eq!(c.set_function(v).bits(), code << 8);
    }
    for (v, code) in ALL_INTERRUPT_MODES {
        assert_eq!(c.set_interrupt_mode(v).bits(), code << 16);
    }
    for (v, code) in ALL_MODES {
        assert_eq!(c.set_mode(v).bits(), code << 30);
    }
}

#[test]
fn enumerated_fields_are_decoded_from_raw_words() {
    for (v, code) in ALL_DRIVES {
        assert_eq!(GpioConfig::from_bits(code << 2).drive(), v);
    }
    for (v, code) in ALL_PULLS {
        assert_eq!(GpioConfig::from_bits(code << 4).pull(), v);
    }
    for (v, code) in ALL_FUNCTIONS {
        assert_eq!(GpioConfig::from_bits(code << 8).function(), v);
    }
    for (v, code) in ALL_INTERRUPT_MODES {
        assert_eq!(GpioConfig::from_bits(code << 16).interrupt_mode(), v);
    }
    for (v, code) in ALL_MODES {
        assert_eq!(GpioConfig::from_bits(code << 30).mode(), v);
    }
}

#[test]
fn setters_replace_whole_field() {
    let c = GpioConfig::from_bits(0x0000_0b00).set_function(Function::Uart);
    assert_eq!(c.bits(), 0x0000_0700);
    let c = GpioConfig::from_bits(0xc000_0000).set_mode(Mode::SetClear);
    assert_eq!(c.bits(), 0x4000_0000);
    let c = GpioConfig::from_bits(0x000b_0000).set_interrupt_mode(InterruptMode::SyncBothEdges);
    assert_eq!(c.bits(), 0x0004_0000);
    let c = GpioConfig::from_bits(0x0000_0020).set_pull(Pull::Up);
    assert_eq!(c.bits(), 0x0000_0010);
    let c = GpioConfig::from_bits(0x0000_000c).set_drive(Drive::Drive0);
    assert_eq!(c.bits(), 0);
}

#[test]
fn setters_keep_other_bits() {
    let ones = GpioConfig::from_bits(0xffff_ffff);
    assert_eq!(ones.set_drive(Drive::Drive0).bits(), !(0x3u32 << 2));
    assert_eq!(ones.set_pull(Pull::Floating).bits(), !(0x3u32 << 4));
    assert_eq!(ones.set_function(Function::Sdh).bits(), !(0x1fu32 << 8));
    assert_eq!(ones.set_interrupt_mode(InterruptMode::SyncFallingEdge).bits(), !(0xfu32 << 16));
    assert_eq!(ones.set_mode(Mode::Normal).bits(), !(0x3u32 << 30));
    assert_eq!(ones.set().bits(), 0xffff_ffff);
    assert_eq!(ones.clear().bits(), 0xffff_ffff);
}

#[test]
fn field_independence_on_a_mixed_word() {
    let c = GpioConfig::default()
        .enable_input()
        .set_drive(Drive::Drive2)
        .set_pull(Pull::Down)
        .set_function(Function::JtagD0)
        .set_interrupt_mode(InterruptMode::AsyncHighLevel)
        .mask_interrupt()
        .set_mode(Mode::Programmable);
    let d = c.set_drive(Drive::Drive3);
    assert_eq!(d.drive(), Drive::Drive3);
    assert_eq!(d.pull(), c.pull());
    assert_eq!(d.function(), c.function());
    assert_eq!(d.interrupt_mode(), c.interrupt_mode());
    assert_eq!(d.mode(), c.mode());
    assert_eq!(d.is_input_enabled(), c.is_input_enabled());
    assert_eq!(d.is_interrupt_masked(), c.is_interrupt_masked());

    let e = c.set_function(Function::Gpio);
    assert_eq!(e.function(), Function::Gpio);
    assert_eq!(e.drive(), Drive::Drive2);
    assert_eq!(e.pull(), Pull::Down);
    assert_eq!(e.interrupt_mode(), InterruptMode::AsyncHighLevel);
    assert_eq!(e.mode(), Mode::Programmable);
    assert!(e.is_input_enabled());
    assert!(e.is_interrupt_masked());
    assert!(!e.is_output_enabled());
}

#[test]
fn set_strobe_leaves_other_fields() {
    let c = GpioConfig::default()
        .set_mode(Mode::SetClear)
        .set_function(Function::Gpio)
        .set_interrupt_mode(InterruptMode::SyncRisingEdge)
        .set_pull(Pull::Up)
        .set_drive(Drive::Drive1)
        .enable_output();
    let s = c.set();
    assert_eq!(s.bits(), c.bits() | (1 << 25));
    assert_eq!(s.bits() & (1 << 26), 0);
    assert_eq!(s.bits() & (1 << 20), 0);
    assert_eq!(s.mode(), Mode::SetClear);
    assert_eq!(s.function(), Function::Gpio);
    assert_eq!(s.interrupt_mode(), InterruptMode::SyncRisingEdge);
    assert_eq!(s.pull(), Pull::Up);
    assert_eq!(s.drive(), Drive::Drive1);
    assert!(s.is_output_enabled());
}

#[test]
fn gpio_output_configuration_then_set_strobe() {
    let c = GpioConfig::default()
        .enable_output()
        .set_function(Function::Gpio)
        .set_mode(Mode::Normal);
    assert_eq!(c.bits(), 0x0000_0b40);
    assert!(c.is_output_enabled());
    assert_eq!(c.function(), Function::Gpio);
    assert_eq!(c.mode(), Mode::Normal);
    // the word read back from the slot, with only the set strobe asserted
    let s = GpioConfig::from_bits(c.bits()).set();
    assert_eq!(s.bits(), 0x0200_0b40);
    assert_eq!(s.function(), Function::Gpio);
    assert!(s.is_output_enabled());
}
