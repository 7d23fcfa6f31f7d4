use axpxx::bits::IRQ_BANKS;
use axpxx::{Action, Axpxx, ChipId, Error, EventsIrq, Power, PowerState, Register, State};

#[derive(Debug, Clone, Copy, PartialEq, Eq)]
struct BusFault;

type Act<T> = Action<T, BusFault>;

/// Runs an operation against a register file; returns the actions issued.
fn run_on<T>(
    regs: &mut [u8; 256],
    first: Act<T>,
    mut step: impl FnMut(Result<u8, BusFault>) -> Act<T>,
) -> Vec<Act<T>> {
    let mut trace = Vec::new();
    let mut action = first;
    loop {
        let reply = match action {
            Action::Done(_) => {
                trace.push(action);
                return trace;
            }
            Action::Read { register, .. } => Ok(regs[register as usize]),
            Action::Write { register, value, .. } => {
                regs[register as usize] = value;
                Ok(0)
            }
            Action::DelayMs { .. } => Ok(0),
        };
        trace.push(action);
        action = step(reply);
    }
}

/// Runs an operation on a scripted sequence of replies.
fn run_scripted<T>(
    first: Act<T>,
    replies: &[Result<u8, BusFault>],
    mut step: impl FnMut(Result<u8, BusFault>) -> Act<T>,
) -> Vec<Act<T>> {
    let mut trace = vec![first];
    for reply in replies {
        if let Some(Action::Done(_)) = trace.last() {
            break;
        }
        trace.push(step(*reply));
    }
    trace
}

fn initialised(code: u8) -> Axpxx {
    let mut dev = Axpxx::new();
    let (mut op, first) = dev.init::<BusFault>();
    assert_eq!(first, Action::Read { address: 0x35, register: 0x03 });
    let done = op.step::<BusFault>(&mut dev, Ok(code));
    assert_eq!(done, Action::Done(Ok(ChipId::from_u8(code))));
    dev
}

#[test]
fn init_primary_chip() {
    let dev = initialised(0x41);
    assert_eq!(dev.state(), State::Initialized(ChipId::Axp202));
}

#[test]
fn init_unknown_chip_succeeds() {
    let dev = initialised(0x77);
    assert_eq!(dev.state(), State::Initialized(ChipId::Unknown));
    assert_eq!(ChipId::from_u8(0x03), ChipId::Axp192);
    assert_eq!(ChipId::from_u8(0xad), ChipId::Axp173);
}

#[test]
fn init_bus_error_keeps_uninitialised() {
    let mut dev = Axpxx::new_with_address(0x34);
    let (mut op, first) = dev.init::<BusFault>();
    assert_eq!(first, Action::Read { address: 0x34, register: 0x03 });
    assert_eq!(op.step(&mut dev, Err(BusFault)), Action::Done(Err(Error::I2cError(BusFault))));
    assert_eq!(dev.state(), State::Uninitialized);
}

#[test]
fn set_power_output_uninitialised_issues_nothing() {
    let dev = Axpxx::new();
    for state in [PowerState::On, PowerState::Off] {
        let (op, first) = dev.set_power_output::<BusFault>(Power::from_bits(0x7f), state);
        assert_eq!(first, Action::Done(Err(Error::Uninitialized)));
        assert!(!op.is_running());
    }
}

#[test]
fn set_power_output_waits_for_non_zero_then_forces_dcdc3() {
    let dev = initialised(0x41);
    let (mut op, first) = dev.set_power_output::<BusFault>(Power::from_bits(Power::LDO2), PowerState::On);
    let trace = run_scripted(first, &[Ok(0x00), Ok(0), Ok(0x05), Ok(0), Ok(0)], |r| op.step(r));
    assert_eq!(
        trace,
        vec![
            Action::Read { address: 0x35, register: 0x12 },
            Action::DelayMs { ms: 10 },
            Action::Read { address: 0x35, register: 0x12 },
            Action::DelayMs { ms: 10 },
            Action::Write { address: 0x35, register: 0x12, value: 0x05 | Power::DCDC3 },
            Action::Done(Ok(())),
        ]
    );
}

#[test]
fn set_power_output_primary_chip_keeps_dcdc3_when_switching_off() {
    let dev = initialised(0x41);
    let (mut op, first) = dev.set_power_output::<BusFault>(Power::from_bits(0xff), PowerState::Off);
    let mut regs = [0u8; 256];
    regs[0x12] = 0x5f;
    let trace = run_on(&mut regs, first, |r| op.step(r));
    assert_eq!(regs[0x12], Power::DCDC3);
    assert_eq!(trace.last(), Some(&Action::Done(Ok(()))));
}

#[test]
fn set_power_output_other_chip_does_not_force_dcdc3() {
    let dev = initialised(0x03);
    let (mut op, first) = dev.set_power_output::<BusFault>(Power::from_bits(Power::DCDC3), PowerState::Off);
    let mut regs = [0u8; 256];
    regs[0x12] = 0x13;
    run_on(&mut regs, first, |r| op.step(r));
    assert_eq!(regs[0x12], 0x11);

    let (mut op, first) = dev.set_power_output::<BusFault>(Power::from_bits(Power::LDO3), PowerState::On);
    regs[0x12] = 0x01;
    run_on(&mut regs, first, |r| op.step(r));
    assert_eq!(regs[0x12], 0x41);
}

#[test]
fn set_power_output_times_out() {
    let mut dev = initialised(0xad);
    dev.set_poll_limit(3);
    let (mut op, first) = dev.set_power_output::<BusFault>(Power::from_bits(Power::EXTEN), PowerState::On);
    let mut regs = [0u8; 256];
    let trace = run_on(&mut regs, first, |r| op.step(r));
    let reads = trace.iter().filter(|a| matches!(a, Action::Read { .. })).count();
    assert_eq!(reads, 3);
    assert_eq!(trace.last(), Some(&Action::Done(Err(Error::Timeout))));
    assert_eq!(regs[0x12], 0);
}

#[test]
fn set_power_output_verifies_write() {
    let mut dev = initialised(0x03);
    dev.set_verify_writes(true);
    let (mut op, first) = dev.set_power_output::<BusFault>(Power::from_bits(Power::LDO4), PowerState::On);
    let trace = run_scripted(first, &[Ok(0x01), Ok(0), Ok(0), Ok(0x01)], |r| op.step(r));
    assert_eq!(trace[3], Action::Read { address: 0x35, register: 0x12 });
    assert_eq!(trace.last(), Some(&Action::Done(Err(Error::WriteVerification))));

    let (mut op, first) = dev.set_power_output::<BusFault>(Power::from_bits(Power::LDO4), PowerState::On);
    let mut regs = [0u8; 256];
    regs[0x12] = 0x01;
    let trace = run_on(&mut regs, first, |r| op.step(r));
    assert_eq!(trace.last(), Some(&Action::Done(Ok(()))));
    assert_eq!(regs[0x12], 0x09);
}

#[test]
fn set_power_output_bus_error_is_passed_on() {
    let dev = initialised(0x41);
    let (mut op, first) = dev.set_power_output::<BusFault>(Power::from_bits(Power::LDO2), PowerState::On);
    let trace = run_scripted(first, &[Ok(0x01), Ok(0), Err(BusFault)], |r| op.step(r));
    assert_eq!(trace.last(), Some(&Action::Done(Err(Error::I2cError(BusFault)))));
}

#[test]
fn battery_voltage_count() {
    let dev = Axpxx::new();
    let (mut op, first) = dev.get_battery_voltage::<BusFault>();
    let mut regs = [0u8; 256];
    regs[0x78] = 0x80;
    regs[0x79] = 0x05;
    let trace = run_on(&mut regs, first, |r| op.step(r));
    assert_eq!(trace[1], Action::Read { address: 0x35, register: 0x79 });
    assert_eq!(trace.last(), Some(&Action::Done(Ok(2053))));
    let volts = 2053u16 as f32 * 1.1;
    assert!((volts - 2258.3).abs() < 0.01);
}

#[test]
fn battery_voltage_ignores_high_nibble_of_low_register() {
    let dev = Axpxx::new();
    let (mut op, first) = dev.get_battery_voltage::<BusFault>();
    let mut regs = [0u8; 256];
    regs[0x78] = 0xff;
    regs[0x79] = 0xf3;
    let trace = run_on(&mut regs, first, |r| op.step(r));
    assert_eq!(trace.last(), Some(&Action::Done(Ok(0xff3))));
}

#[test]
fn battery_percentage_reads_register() {
    let dev = Axpxx::new();
    let (mut op, first) = dev.get_battery_percentage::<BusFault>();
    assert_eq!(first, Action::Read { address: 0x35, register: 0xb9 });
    assert_eq!(op.step::<BusFault>(Ok(87)), Action::Done(Ok(87)));
}

#[test]
fn status_flags_decode_their_bits() {
    let dev = Axpxx::new();
    let mut regs = [0u8; 256];
    regs[0x00] = 0b1010_1001;
    regs[0x33] = 0x80;
    let cases = [
        (dev.is_acin_present::<BusFault>(), true),
        (dev.is_acin_usable::<BusFault>(), false),
        (dev.is_vbus_present::<BusFault>(), true),
        (dev.is_vbus_usable::<BusFault>(), false),
        (dev.is_vbus_above::<BusFault>(), true),
        (dev.is_acin_vbus_shortcircuit::<BusFault>(), false),
        (dev.is_bootsource_acin_vbus::<BusFault>(), true),
        (dev.is_battery_charging::<BusFault>(), true),
    ];
    for ((mut op, first), expected) in cases {
        let trace = run_on(&mut regs, first, |r| op.step(r));
        assert_eq!(trace.len(), 2);
        assert_eq!(trace.last(), Some(&Action::Done(Ok(expected))));
    }
}

#[test]
fn status_flag_bus_error() {
    let dev = Axpxx::new();
    let (mut op, _) = dev.is_vbus_present::<BusFault>();
    assert_eq!(op.step(Err(BusFault)), Action::Done(Err(Error::I2cError(BusFault))));
}

#[test]
fn read_irq_scenario() {
    let dev = Axpxx::new();
    let (mut op, first) = dev.read_irq::<BusFault>();
    let mut regs = [0u8; 256];
    regs[0x48] = 0x01;
    let trace = run_on(&mut regs, first, |r| op.step(r));
    let mut expected: Vec<Act<EventsIrq>> = Vec::new();
    for reg in 0x48..=0x4c {
        expected.push(Action::Read { address: 0x35, register: reg });
    }
    for reg in 0x48..=0x4c {
        expected.push(Action::Write { address: 0x35, register: reg, value: 0xff });
    }
    expected.push(Action::Done(Ok(EventsIrq::from_bits(0x01))));
    assert_eq!(trace, expected);
    for reg in 0x48..=0x4c {
        assert_eq!(regs[reg], 0xff);
    }
}

#[test]
fn read_irq_clears_all_banks_even_when_empty() {
    let dev = Axpxx::new();
    let (mut op, first) = dev.read_irq::<BusFault>();
    let mut regs = [0u8; 256];
    let trace = run_on(&mut regs, first, |r| op.step(r));
    let reads = trace.iter().filter(|a| matches!(a, Action::Read { .. })).count();
    let writes = trace.iter().filter(|a| matches!(a, Action::Write { value: 0xff, .. })).count();
    assert_eq!((reads, writes, trace.len()), (5, 5, 11));
    assert_eq!(trace.last(), Some(&Action::Done(Ok(EventsIrq::empty()))));
}

#[test]
fn read_irq_combines_banks() {
    let dev = Axpxx::new();
    let (mut op, first) = dev.read_irq::<BusFault>();
    let mut regs = [0u8; 256];
    regs[0x48] = 0x12;
    regs[0x49] = 0x34;
    regs[0x4a] = 0x56;
    regs[0x4b] = 0x78;
    regs[0x4c] = 0x9a;
    let trace = run_on(&mut regs, first, |r| op.step(r));
    assert_eq!(trace.last(), Some(&Action::Done(Ok(EventsIrq::from_bits(0x9a_7856_3412)))));
}

#[test]
fn read_irq_stops_on_bus_error() {
    let dev = Axpxx::new();
    let (mut op, first) = dev.read_irq::<BusFault>();
    let trace = run_scripted(first, &[Ok(1), Err(BusFault), Ok(0)], |r| op.step(r));
    assert_eq!(trace.len(), 3);
    assert_eq!(trace.last(), Some(&Action::Done(Err(Error::I2cError(BusFault)))));
}

#[test]
fn clear_irq_writes_all_five() {
    let dev = Axpxx::new();
    let (mut op, first) = dev.clear_irq::<BusFault>();
    let mut regs = [0u8; 256];
    let trace = run_on(&mut regs, first, |r| op.step(r));
    assert_eq!(trace.len(), 6);
    for reg in 0x48..=0x4c {
        assert_eq!(regs[reg], 0xff);
    }
}

#[test]
fn toggle_irq_round_trip() {
    let dev = Axpxx::new();
    let mut regs = [0u8; 256];
    regs[0x40] = 0x81;
    regs[0x41] = 0x22;
    regs[0x42] = 0x01;
    regs[0x43] = 0x44;
    regs[0x45] = 0x08;
    let before = regs;
    let irqs = EventsIrq::from_bits(EventsIrq::POWER_KEY_SHORT_PRESS | 0x10);

    let (mut op, first) = dev.toggle_irq::<BusFault>(irqs, true);
    let trace = run_on(&mut regs, first, |r| op.step(r));
    assert_eq!(
        trace,
        vec![
            Action::Read { address: 0x35, register: 0x40 },
            Action::Write { address: 0x35, register: 0x40, value: 0x91 },
            Action::Read { address: 0x35, register: 0x42 },
            Action::Write { address: 0x35, register: 0x42, value: 0x03 },
            Action::Done(Ok(())),
        ]
    );
    assert_eq!((regs[0x41], regs[0x43], regs[0x45]), (0x22, 0x44, 0x08));

    let (mut op, first) = dev.toggle_irq::<BusFault>(irqs, false);
    run_on(&mut regs, first, |r| op.step(r));
    assert_eq!(regs, before);
}

#[test]
fn toggle_irq_disable_clears_only_requested_bits() {
    let dev = Axpxx::new();
    let mut regs = [0u8; 256];
    regs[0x45] = 0xf0;
    let (mut op, first) = dev.toggle_irq::<BusFault>(EventsIrq::from_bits(0x30_0000_0000), false);
    let trace = run_on(&mut regs, first, |r| op.step(r));
    assert_eq!(trace.len(), 3);
    assert_eq!(regs[0x45], 0xc0);
}

#[test]
fn toggle_irq_empty_mask_touches_nothing() {
    let dev = Axpxx::new();
    let (_, first) = dev.toggle_irq::<BusFault>(EventsIrq::empty(), true);
    assert_eq!(first, Action::Done(Ok(())));
}

#[test]
fn bank_codec_round_trip() {
    for n in 0..IRQ_BANKS {
        for b in 0..=255u8 {
            let placed = EventsIrq::from_bank_u8(n, b);
            assert_eq!(placed.into_bank_u8(n), b);
            assert_eq!(placed.bits, (b as u64) << (8 * n));
        }
    }
    let m = EventsIrq::from_bits(0x11_2233_4455);
    assert_eq!(
        [m.into_int1_u8(), m.into_int2_u8(), m.into_int3_u8(), m.into_int4_u8(), m.into_int5_u8()],
        [0x55, 0x44, 0x33, 0x22, 0x11]
    );
    assert_eq!(EventsIrq::from_int3_u8(0x02).bits, EventsIrq::POWER_KEY_SHORT_PRESS);
    assert_eq!(EventsIrq::from_int5_u8(0xff).bits, EventsIrq::INT5);
    assert_eq!(EventsIrq::from_int1_u8(0x0f).bits, 0x0f);
    assert_eq!(EventsIrq::from_int2_u8(0x01).bits, 0x100);
    assert_eq!(EventsIrq::from_int4_u8(0x80).bits, 0x8000_0000);
}

#[test]
fn bank_membership() {
    let m = EventsIrq::from_bits(EventsIrq::POWER_KEY_SHORT_PRESS);
    assert_eq!(
        [m.is_int1(), m.is_int2(), m.is_int3(), m.is_int4(), m.is_int5()],
        [false, false, true, false, false]
    );
    let all = EventsIrq::from_bits(EventsIrq::INT1 | EventsIrq::INT2 | EventsIrq::INT4 | EventsIrq::INT5);
    assert_eq!(
        [all.is_int1(), all.is_int2(), all.is_int3(), all.is_int4(), all.is_int5()],
        [true, true, false, true, true]
    );
}

#[test]
fn events_toggle() {
    let a = EventsIrq::from_bits(0b1100);
    let b = EventsIrq::from_bits(0b1010);
    assert_eq!(a.toggle(b, true).bits, 0b1110);
    assert_eq!(a.toggle(b, false).bits, 0b0100);
    assert!(a.intersects(b));
    assert_eq!(a.union(b).bits, 0b1110);
    assert_eq!(a.intersection(b).bits, 0b1000);
}

#[test]
fn power_sets() {
    let p = Power::from_bits(Power::LDO2 | Power::DCDC2);
    assert_eq!(p.union(Power::from_bits(Power::EXTEN)).bits, 0x15);
    assert_eq!(p.difference(Power::from_bits(Power::LDO2)).bits, 0x10);
}

#[test]
fn error_from_bus_error() {
    let e: Error<BusFault> = Error::from(BusFault);
    assert_eq!(e, Error::I2cError(BusFault));
}

#[test]
fn register_addresses() {
    assert_eq!(Register::EnabledIrq5.addr(), 0x45);
    assert_eq!(Register::StatusIrq3.addr(), 0x4a);
    assert_eq!(Register::Ldo234Dc23Ctl.addr(), 0x12);
    assert_eq!(ChipId::Axp202.code(), 0x41);
}
