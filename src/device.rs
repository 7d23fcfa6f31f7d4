//! The device handle and the operations on it.
//!
//! The driver does no I/O itself. Each operation is a small state machine: it
//! is created by a method of [`Axpxx`] together with its first [`Action`], and
//! `step` takes the reply to the last action and returns the next one, until
//! an [`Action::Done`] carries the operation's result. The reply to a read is
//! `Ok(byte)`; the reply to a write or a delay is `Ok` of any byte; a failed
//! transfer is `Err` with the bus's error.
use vstd::prelude::*;
use crate::bits::{
    bank_bits, bank_byte, bank_mask, lemma_bank_byte_toggle, toggled_byte, Charge, EventsIrq,
    Power, PowerInputStatus, PowerState, IRQ_BANKS,
};
use crate::regs::{
    enabled_irq, enabled_irq_addr, status_irq, status_irq_addr, ChipId, DEFAULT_ADDRESS, Error,
    Register,
};

verus! {

/// What the bus is to do next, or the end of an operation.
#[derive(Debug, PartialEq, Eq)]
pub enum Action<T, E> {
    /// Write the register's address to the device, then read one byte.
    Read { address: u8, register: u8 },
    /// Write the register's address and the value to the device.
    Write { address: u8, register: u8, value: u8 },
    /// Wait this many milliseconds.
    DelayMs { ms: u32 },
    /// The operation ended with this result.
    Done(Result<T, Error<E>>),
}

/// Milliseconds waited after each read of the rail-control register.
pub const RAIL_POLL_DELAY_MS: u32 = 10;

/// Reads of the rail-control register allowed by default before giving up.
pub const DEFAULT_POLL_LIMIT: u32 = 100;

/// Lifecycle of a device handle.
#[derive(Debug, Clone, Copy, PartialEq, Eq, Structural)]
pub enum State {
    Uninitialized,
    Initialized(ChipId),
}

/// A handle on one chip at one bus address.
pub struct Axpxx {
    address: u8,
    state: State,
    verify_writes: bool,
    poll_limit: u32,
}

impl Axpxx {
    pub closed spec fn spec_address(&self) -> u8 {
        self.address
    }

    pub closed spec fn spec_state(&self) -> State {
        self.state
    }

    pub closed spec fn spec_verify_writes(&self) -> bool {
        self.verify_writes
    }

    pub closed spec fn spec_poll_limit(&self) -> u32 {
        self.poll_limit
    }

    /// A handle at the default address, not yet initialised, trusting writes.
    pub fn new() -> (r: Axpxx)
        ensures
            r.spec_address() == DEFAULT_ADDRESS,
            r.spec_state() == State::Uninitialized,
            !r.spec_verify_writes(),
            r.spec_poll_limit() == DEFAULT_POLL_LIMIT,
    {
        Axpxx {
            address: DEFAULT_ADDRESS,
            state: State::Uninitialized,
            verify_writes: false,
            poll_limit: DEFAULT_POLL_LIMIT,
        }
    }

    /// A handle at a given address, not yet initialised, trusting writes.
    pub fn new_with_address(address: u8) -> (r: Axpxx)
        ensures
            r.spec_address() == address,
            r.spec_state() == State::Uninitialized,
            !r.spec_verify_writes(),
            r.spec_poll_limit() == DEFAULT_POLL_LIMIT,
    {
        Axpxx { address, state: State::Uninitialized, verify_writes: false, poll_limit: DEFAULT_POLL_LIMIT }
    }

    pub fn address(&self) -> (r: u8)
        ensures
            r == self.spec_address(),
    {
        self.address
    }

    pub fn state(&self) -> (r: State)
        ensures
            r == self.spec_state(),
    {
        self.state
    }

    pub fn verify_writes(&self) -> (r: bool)
        ensures
            r == self.spec_verify_writes(),
    {
        self.verify_writes
    }

    pub fn poll_limit(&self) -> (r: u32)
        ensures
            r == self.spec_poll_limit(),
    {
        self.poll_limit
    }

    /// Whether a rail change reads the register back and compares.
    pub fn set_verify_writes(&mut self, verify: bool)
        ensures
            final(self).spec_verify_writes() == verify,
            final(self).spec_address() == old(self).spec_address(),
            final(self).spec_state() == old(self).spec_state(),
            final(self).spec_poll_limit() == old(self).spec_poll_limit(),
    {
        self.verify_writes = verify;
    }

    /// How many reads of the rail-control register a rail change may make
    /// while it reads zero; at least one read is always made.
    pub fn set_poll_limit(&mut self, limit: u32)
        ensures
            final(self).spec_poll_limit() == limit,
            final(self).spec_address() == old(self).spec_address(),
            final(self).spec_state() == old(self).spec_state(),
            final(self).spec_verify_writes() == old(self).spec_verify_writes(),
    {
        self.poll_limit = limit;
    }
}

/// The reply to a read as the result of an operation, the byte decoded by `decode`.
pub open spec fn read_outcome<T, E>(reply: Result<u8, E>, decode: spec_fn(u8) -> T) -> Action<T, E> {
    match reply {
        Ok(v) => Action::Done(Ok(decode(v))),
        Err(e) => Action::Done(Err(Error::I2cError(e))),
    }
}

/// Reads the identity register and records the chip in the handle.
pub struct Init {
    pub finished: bool,
}

impl Init {
    pub fn step<E>(&mut self, dev: &mut Axpxx, reply: Result<u8, E>) -> (r: Action<ChipId, E>)
        requires
            !old(self).finished,
        ensures
            final(self).finished,
            r == read_outcome(reply, |v: u8| ChipId::spec_from_u8(v)),
            final(dev).spec_state() == (match reply {
                Ok(v) => State::Initialized(ChipId::spec_from_u8(v)),
                Err(_) => old(dev).spec_state(),
            }),
            final(dev).spec_address() == old(dev).spec_address(),
            final(dev).spec_verify_writes() == old(dev).spec_verify_writes(),
            final(dev).spec_poll_limit() == old(dev).spec_poll_limit(),
    {
        self.finished = true;
        match reply {
            Ok(v) => {
                let chip = ChipId::from_u8(v);
                dev.state = State::Initialized(chip);
                Action::Done(Ok(chip))
            },
            Err(e) => Action::Done(Err(Error::I2cError(e))),
        }
    }
}

/// Reads one register and tells whether any bit of `mask` is set in it.
pub struct FlagRead {
    pub mask: u8,
    pub finished: bool,
}

impl FlagRead {
    pub fn step<E>(&mut self, reply: Result<u8, E>) -> (r: Action<bool, E>)
        requires
            !old(self).finished,
        ensures
            final(self).finished,
            final(self).mask == old(self).mask,
            r == read_outcome(reply, |v: u8| v & old(self).mask != 0),
    {
        self.finished = true;
        match reply {
            Ok(v) => Action::Done(Ok(v & self.mask != 0)),
            Err(e) => Action::Done(Err(Error::I2cError(e))),
        }
    }
}

/// Reads one register and returns its byte.
pub struct ByteRead {
    pub finished: bool,
}

impl ByteRead {
    pub fn step<E>(&mut self, reply: Result<u8, E>) -> (r: Action<u8, E>)
        requires
            !old(self).finished,
        ensures
            final(self).finished,
            r == read_outcome(reply, |v: u8| v),
    {
        self.finished = true;
        match reply {
            Ok(v) => Action::Done(Ok(v)),
            Err(e) => Action::Done(Err(Error::I2cError(e))),
        }
    }
}

/// The battery-voltage count of the two voltage registers: the high byte
/// followed by the low nibble of the low register.
pub open spec fn voltage_count(high: u8, low: u8) -> u16 {
    ((high as u16) << 4) | ((low & 0x0f) as u16)
}

/// Reads the two battery-voltage registers and returns their count.
pub struct VoltageRead {
    pub address: u8,
    /// `None` while the high byte is awaited.
    pub high: Option<u8>,
    pub finished: bool,
}

impl VoltageRead {
    pub fn step<E>(&mut self, reply: Result<u8, E>) -> (r: Action<u16, E>)
        requires
            !old(self).finished,
        ensures
            final(self).address == old(self).address,
            match reply {
                Err(e) => final(self).finished && r == Action::<u16, E>::Done(Err(Error::I2cError(e))),
                Ok(v) => match old(self).high {
                    None => !final(self).finished && final(self).high == Some(v) && r
                        == Action::<u16, E>::Read {
                        address: old(self).address,
                        register: Register::BatteryAverageVoltageLow4b.spec_addr(),
                    },
                    Some(h) => final(self).finished && r == Action::<u16, E>::Done(
                        Ok(voltage_count(h, v)),
                    ),
                },
            },
    {
        match reply {
            Err(e) => {
                self.finished = true;
                Action::Done(Err(Error::I2cError(e)))
            },
            Ok(v) => match self.high {
                None => {
                    self.high = Some(v);
                    Action::Read {
                        address: self.address,
                        register: Register::BatteryAverageVoltageLow4b.addr(),
                    }
                },
                Some(h) => {
                    self.finished = true;
                    Action::Done(Ok(((h as u16) << 4) | ((v & 0x0f) as u16)))
                },
            },
        }
    }
}

impl Axpxx {
    /// Starts reading the chip's identity; the handle is initialised when
    /// the read succeeds, whatever the identity.
    pub fn init<E>(&self) -> (r: (Init, Action<ChipId, E>))
        ensures
            !r.0.finished,
            r.1 == (Action::<ChipId, E>::Read {
                address: self.spec_address(),
                register: Register::IcType.spec_addr(),
            }),
    {
        (Init { finished: false }, Action::Read { address: self.address, register: Register::IcType.addr() })
    }

    fn flag_read<E>(&self, register: Register, mask: u8) -> (r: (FlagRead, Action<bool, E>))
        ensures
            !r.0.finished,
            r.0.mask == mask,
            r.1 == (Action::<bool, E>::Read { address: self.spec_address(), register: register.spec_addr() }),
    {
        (FlagRead { mask, finished: false }, Action::Read { address: self.address, register: register.addr() })
    }

    /// Whether AC input is present.
    pub fn is_acin_present<E>(&self) -> (r: (FlagRead, Action<bool, E>))
        ensures
            !r.0.finished,
            r.0.mask == PowerInputStatus::ACIN_PRESENCE,
            r.1 == (Action::<bool, E>::Read { address: self.spec_address(), register: 0x00 }),
    {
        self.flag_read(Register::PowerInputStatus, PowerInputStatus::ACIN_PRESENCE)
    }

    /// Whether AC input is usable.
    pub fn is_acin_usable<E>(&self) -> (r: (FlagRead, Action<bool, E>))
        ensures
            !r.0.finished,
            r.0.mask == PowerInputStatus::ACIN_USABLE,
            r.1 == (Action::<bool, E>::Read { address: self.spec_address(), register: 0x00 }),
    {
        self.flag_read(Register::PowerInputStatus, PowerInputStatus::ACIN_USABLE)
    }

    /// Whether VBUS is present.
    pub fn is_vbus_present<E>(&self) -> (r: (FlagRead, Action<bool, E>))
        ensures
            !r.0.finished,
            r.0.mask == PowerInputStatus::VBUS_PRESENCE,
            r.1 == (Action::<bool, E>::Read { address: self.spec_address(), register: 0x00 }),
    {
        self.flag_read(Register::PowerInputStatus, PowerInputStatus::VBUS_PRESENCE)
    }

    /// Whether VBUS is usable.
    pub fn is_vbus_usable<E>(&self) -> (r: (FlagRead, Action<bool, E>))
        ensures
            !r.0.finished,
            r.0.mask == PowerInputStatus::VBUS_USABLE,
            r.1 == (Action::<bool, E>::Read { address: self.spec_address(), register: 0x00 }),
    {
        self.flag_read(Register::PowerInputStatus, PowerInputStatus::VBUS_USABLE)
    }

    /// Whether VBUS is above its hold threshold.
    pub fn is_vbus_above<E>(&self) -> (r: (FlagRead, Action<bool, E>))
        ensures
            !r.0.finished,
            r.0.mask == PowerInputStatus::VBUS_ABOVE,
            r.1 == (Action::<bool, E>::Read { address: self.spec_address(), register: 0x00 }),
    {
        self.flag_read(Register::PowerInputStatus, PowerInputStatus::VBUS_ABOVE)
    }

    /// Whether AC input and VBUS are short-circuited.
    pub fn is_acin_vbus_shortcircuit<E>(&self) -> (r: (FlagRead, Action<bool, E>))
        ensures
            !r.0.finished,
            r.0.mask == PowerInputStatus::ACIN_VBUS_SHORT_CIRCUIT,
            r.1 == (Action::<bool, E>::Read { address: self.spec_address(), register: 0x00 }),
    {
        self.flag_read(Register::PowerInputStatus, PowerInputStatus::ACIN_VBUS_SHORT_CIRCUIT)
    }

    /// Whether the chip booted from AC input or VBUS.
    pub fn is_bootsource_acin_vbus<E>(&self) -> (r: (FlagRead, Action<bool, E>))
        ensures
            !r.0.finished,
            r.0.mask == PowerInputStatus::BOOT_SOURCE,
            r.1 == (Action::<bool, E>::Read { address: self.spec_address(), register: 0x00 }),
    {
        self.flag_read(Register::PowerInputStatus, PowerInputStatus::BOOT_SOURCE)
    }

    /// Whether the battery is charging.
    pub fn is_battery_charging<E>(&self) -> (r: (FlagRead, Action<bool, E>))
        ensures
            !r.0.finished,
            r.0.mask == Charge::CHARGING,
            r.1 == (Action::<bool, E>::Read { address: self.spec_address(), register: 0x33 }),
    {
        self.flag_read(Register::Charge1, Charge::CHARGING)
    }

    /// The battery percentage register, read as it stands: no check that a
    /// battery is connected and no masking of the register's top bit, on
    /// every chip.
    pub fn get_battery_percentage<E>(&self) -> (r: (ByteRead, Action<u8, E>))
        ensures
            !r.0.finished,
            r.1 == (Action::<u8, E>::Read { address: self.spec_address(), register: 0xb9 }),
    {
        (
            ByteRead { finished: false },
            Action::Read { address: self.address, register: Register::BatteryPercentage.addr() },
        )
    }

    /// The battery-voltage count; one count is 1.1 mV.
    pub fn get_battery_voltage<E>(&self) -> (r: (VoltageRead, Action<u16, E>))
        ensures
            !r.0.finished,
            r.0.high.is_none(),
            r.0.address == self.spec_address(),
            r.1 == (Action::<u16, E>::Read { address: self.spec_address(), register: 0x78 }),
    {
        (
            VoltageRead { address: self.address, high: None, finished: false },
            Action::Read { address: self.address, register: Register::BatteryAverageVoltageHigh8b.addr() },
        )
    }
}

/// The rail-control byte after switching the rails of `channel` in `data`.
pub open spec fn switched_rails(data: u8, channel: u8, state: PowerState) -> u8 {
    match state {
        PowerState::On => data | channel,
        PowerState::Off => data & !channel,
    }
}

/// The rail-control byte that a rail change writes: the switched rails, and on
/// the primary chip the DC-DC3 rail forced on.
pub open spec fn rail_value(data: u8, channel: u8, state: PowerState, chip: ChipId) -> u8 {
    if chip == ChipId::Axp202 {
        switched_rails(data, channel, state) | Power::DCDC3
    } else {
        switched_rails(data, channel, state)
    }
}

/// Where a rail change stands: what the reply it awaits is to.
#[derive(Debug, Clone, Copy, PartialEq, Eq, Structural)]
pub enum RailStage {
    /// A read of the rail-control register.
    Reading,
    /// The delay after a read that gave `data`.
    Settling { data: u8 },
    /// The write of `value`.
    Writing { value: u8 },
    /// The read back of the written `value`.
    Verifying { value: u8 },
    /// Nothing: the operation is over.
    Finished,
}

/// Switches the rails of `channel` on or off in the rail-control register.
pub struct SetPowerOutput {
    pub address: u8,
    pub channel: Power,
    pub state: PowerState,
    pub chip: ChipId,
    pub verify: bool,
    /// Reads of the register still allowed after the one in progress.
    pub polls_left: u32,
    pub stage: RailStage,
}

impl SetPowerOutput {
    /// The next state and action after `reply`.
    pub open spec fn next<E>(self, reply: Result<u8, E>) -> (SetPowerOutput, Action<(), E>) {
        match reply {
            Err(e) => (SetPowerOutput { stage: RailStage::Finished, ..self }, Action::Done(Err(Error::I2cError(e)))),
            Ok(v) => match self.stage {
                RailStage::Reading => (
                    SetPowerOutput { stage: RailStage::Settling { data: v }, ..self },
                    Action::DelayMs { ms: RAIL_POLL_DELAY_MS },
                ),
                RailStage::Settling { data } => if data != 0 {
                    let value = rail_value(data, self.channel.bits, self.state, self.chip);
                    (
                        SetPowerOutput { stage: RailStage::Writing { value }, ..self },
                        Action::Write { address: self.address, register: 0x12, value },
                    )
                } else if self.polls_left == 0 {
                    (SetPowerOutput { stage: RailStage::Finished, ..self }, Action::Done(Err(Error::Timeout)))
                } else {
                    (
                        SetPowerOutput {
                            stage: RailStage::Reading,
                            polls_left: (self.polls_left - 1) as u32,
                            ..self
                        },
                        Action::Read { address: self.address, register: 0x12 },
                    )
                },
                RailStage::Writing { value } => if self.verify {
                    (
                        SetPowerOutput { stage: RailStage::Verifying { value }, ..self },
                        Action::Read { address: self.address, register: 0x12 },
                    )
                } else {
                    (SetPowerOutput { stage: RailStage::Finished, ..self }, Action::Done(Ok(())))
                },
                RailStage::Verifying { value } => (
                    SetPowerOutput { stage: RailStage::Finished, ..self },
                    if v == value {
                        Action::Done(Ok(()))
                    } else {
                        Action::Done(Err(Error::WriteVerification))
                    },
                ),
                RailStage::Finished => (self, Action::Done(Ok(()))),
            },
        }
    }

    pub fn is_running(&self) -> (r: bool)
        ensures
            r == (self.stage != RailStage::Finished),
    {
        match self.stage {
            RailStage::Finished => false,
            _ => true,
        }
    }

    /// Takes the reply to the last action and returns the next one.
    pub fn step<E>(&mut self, reply: Result<u8, E>) -> (r: Action<(), E>)
        requires
            old(self).stage != RailStage::Finished,
        ensures
            (*final(self), r) == old(self).next(reply),
    {
        match reply {
            Err(e) => {
                self.stage = RailStage::Finished;
                Action::Done(Err(Error::I2cError(e)))
            },
            Ok(v) => match self.stage {
                RailStage::Reading => {
                    self.stage = RailStage::Settling { data: v };
                    Action::DelayMs { ms: RAIL_POLL_DELAY_MS }
                },
                RailStage::Settling { data } => {
                    if data != 0 {
                        let switched = match self.state {
                            PowerState::On => Power::from_bits(data).union(self.channel),
                            PowerState::Off => Power::from_bits(data).difference(self.channel),
                        };
                        let value: u8 = if self.chip == ChipId::Axp202 {
                            switched.union(Power::from_bits(Power::DCDC3)).bits
                        } else {
                            switched.bits
                        };
                        self.stage = RailStage::Writing { value };
                        Action::Write { address: self.address, register: Register::Ldo234Dc23Ctl.addr(), value }
                    } else if self.polls_left == 0 {
                        self.stage = RailStage::Finished;
                        Action::Done(Err(Error::Timeout))
                    } else {
                        self.polls_left = self.polls_left - 1;
                        self.stage = RailStage::Reading;
                        Action::Read { address: self.address, register: Register::Ldo234Dc23Ctl.addr() }
                    }
                },
                RailStage::Writing { value } => {
                    if self.verify {
                        self.stage = RailStage::Verifying { value };
                        Action::Read { address: self.address, register: Register::Ldo234Dc23Ctl.addr() }
                    } else {
                        self.stage = RailStage::Finished;
                        Action::Done(Ok(()))
                    }
                },
                RailStage::Verifying { value } => {
                    self.stage = RailStage::Finished;
                    if v == value {
                        Action::Done(Ok(()))
                    } else {
                        Action::Done(Err(Error::WriteVerification))
                    }
                },
                RailStage::Finished => Action::Done(Ok(())),
            },
        }
    }
}

/// On the primary chip every write that a rail change issues has the DC-DC3
/// rail on, whatever rails and state were asked for.
pub proof fn lemma_primary_chip_forces_dcdc3<E>(m: SetPowerOutput, reply: Result<u8, E>)
    requires
        m.chip == ChipId::Axp202,
    ensures
        m.next(reply).1 matches Action::Write { value, .. } ==> value & Power::DCDC3 != 0,
{
    if let RailStage::Settling { data } = m.stage {
        let x = switched_rails(data, m.channel.bits, m.state);
        assert((x | 2u8) & 2u8 != 0) by (bit_vector);
    }
}

/// On any other chip the only write that a rail change issues follows the
/// read of a non-zero byte, and writes that byte with the rails switched as
/// asked and nothing forced on.
pub proof fn lemma_other_chips_not_forced<E>(m: SetPowerOutput, reply: Result<u8, E>)
    requires
        m.chip != ChipId::Axp202,
    ensures
        m.next(reply).1 matches Action::Write { value, .. } ==> m.stage matches RailStage::Settling {
            data,
        } && data != 0 && value == switched_rails(data, m.channel.bits, m.state),
{
}

impl Axpxx {
    /// Starts switching the rails of `channel` to `state`. An uninitialised
    /// handle ends at once with `Uninitialized` and no bus transfer. Else the
    /// rail-control register is read, with a delay after each read, until it
    /// reads non-zero, at most `poll_limit` times in all (at least once); the
    /// rails are then switched in that byte, the DC-DC3 rail forced on for the
    /// primary chip, and the byte written, and read back when the handle
    /// verifies writes.
    pub fn set_power_output<E>(&self, channel: Power, state: PowerState) -> (r: (SetPowerOutput, Action<(), E>))
        ensures
            self.spec_state() == State::Uninitialized ==> r.0.stage == RailStage::Finished
                && r.1 == Action::<(), E>::Done(Err(Error::Uninitialized)),
            self.spec_state() matches State::Initialized(chip) ==> r.1 == (Action::<(), E>::Read {
                address: self.spec_address(),
                register: 0x12,
            }) && r.0 == (SetPowerOutput {
                address: self.spec_address(),
                channel,
                state,
                chip,
                verify: self.spec_verify_writes(),
                polls_left: if self.spec_poll_limit() == 0 {
                    0
                } else {
                    (self.spec_poll_limit() - 1) as u32
                },
                stage: RailStage::Reading,
            }),
    {
        match self.state {
            State::Uninitialized => (
                SetPowerOutput {
                    address: self.address,
                    channel,
                    state,
                    chip: ChipId::Unknown,
                    verify: self.verify_writes,
                    polls_left: 0,
                    stage: RailStage::Finished,
                },
                Action::Done(Err(Error::Uninitialized)),
            ),
            State::Initialized(chip) => {
                let polls_left: u32 = if self.poll_limit == 0 { 0 } else { self.poll_limit - 1 };
                (
                    SetPowerOutput {
                        address: self.address,
                        channel,
                        state,
                        chip,
                        verify: self.verify_writes,
                        polls_left,
                        stage: RailStage::Reading,
                    },
                    Action::Read { address: self.address, register: Register::Ldo234Dc23Ctl.addr() },
                )
            },
        }
    }
}

/// Reads the five interrupt status registers, then writes 0xFF to each of
/// them to clear it, and returns the events that they held.
pub struct ReadIrq {
    pub address: u8,
    /// Below 5: the read of bank `stage` is awaited; from 5 to 9: the write to
    /// bank `stage - 5`; 10: finished.
    pub stage: usize,
    /// The events of the banks read so far.
    pub events: u64,
}

impl ReadIrq {
    pub open spec fn next<E>(self, reply: Result<u8, E>) -> (ReadIrq, Action<EventsIrq, E>) {
        match reply {
            Err(e) => (ReadIrq { stage: 10, ..self }, Action::Done(Err(Error::I2cError(e)))),
            Ok(v) => if self.stage < 4 {
                (
                    ReadIrq {
                        stage: (self.stage + 1) as usize,
                        events: self.events | bank_bits(v, self.stage as nat),
                        ..self
                    },
                    Action::Read {
                        address: self.address,
                        register: status_irq_addr((self.stage + 1) as nat),
                    },
                )
            } else if self.stage == 4 {
                (
                    ReadIrq { stage: 5, events: self.events | bank_bits(v, 4), ..self },
                    Action::Write { address: self.address, register: status_irq_addr(0), value: 0xff },
                )
            } else if self.stage < 9 {
                (
                    ReadIrq { stage: (self.stage + 1) as usize, ..self },
                    Action::Write {
                        address: self.address,
                        register: status_irq_addr((self.stage - 4) as nat),
                        value: 0xff,
                    },
                )
            } else {
                (ReadIrq { stage: 10, ..self }, Action::Done(Ok(EventsIrq { bits: self.events })))
            },
        }
    }

    pub fn is_running(&self) -> (r: bool)
        ensures
            r == (self.stage < 10),
    {
        self.stage < 10
    }

    /// Takes the reply to the last action and returns the next one.
    pub fn step<E>(&mut self, reply: Result<u8, E>) -> (r: Action<EventsIrq, E>)
        requires
            old(self).stage < 10,
        ensures
            (*final(self), r) == old(self).next(reply),
    {
        match reply {
            Err(e) => {
                self.stage = 10;
                Action::Done(Err(Error::I2cError(e)))
            },
            Ok(v) => {
                if self.stage < 5 {
                    self.events = self.events | EventsIrq::from_bank_u8(self.stage, v).bits;
                    self.stage = self.stage + 1;
                    if self.stage < 5 {
                        Action::Read { address: self.address, register: status_irq(self.stage).addr() }
                    } else {
                        Action::Write { address: self.address, register: status_irq(0).addr(), value: 0xff }
                    }
                } else if self.stage < 9 {
                    self.stage = self.stage + 1;
                    Action::Write {
                        address: self.address,
                        register: status_irq(self.stage - 5).addr(),
                        value: 0xff,
                    }
                } else {
                    self.stage = 10;
                    Action::Done(Ok(EventsIrq::from_bits(self.events)))
                }
            },
        }
    }
}

/// Writes 0xFF to the five interrupt status registers to clear them.
pub struct ClearIrq {
    pub address: u8,
    /// Below 5: the write to bank `stage` is awaited; 5: finished.
    pub stage: usize,
}

impl ClearIrq {
    pub open spec fn next<E>(self, reply: Result<u8, E>) -> (ClearIrq, Action<(), E>) {
        match reply {
            Err(e) => (ClearIrq { stage: 5, ..self }, Action::Done(Err(Error::I2cError(e)))),
            Ok(_) => if self.stage < 4 {
                (
                    ClearIrq { stage: (self.stage + 1) as usize, ..self },
                    Action::Write {
                        address: self.address,
                        register: status_irq_addr((self.stage + 1) as nat),
                        value: 0xff,
                    },
                )
            } else {
                (ClearIrq { stage: 5, ..self }, Action::Done(Ok(())))
            },
        }
    }

    pub fn is_running(&self) -> (r: bool)
        ensures
            r == (self.stage < 5),
    {
        self.stage < 5
    }

    /// Takes the reply to the last action and returns the next one.
    pub fn step<E>(&mut self, reply: Result<u8, E>) -> (r: Action<(), E>)
        requires
            old(self).stage < 5,
        ensures
            (*final(self), r) == old(self).next(reply),
    {
        match reply {
            Err(e) => {
                self.stage = 5;
                Action::Done(Err(Error::I2cError(e)))
            },
            Ok(_) => {
                if self.stage < 4 {
                    self.stage = self.stage + 1;
                    Action::Write { address: self.address, register: status_irq(self.stage).addr(), value: 0xff }
                } else {
                    self.stage = 5;
                    Action::Done(Ok(()))
                }
            },
        }
    }
}

/// The first bank from `from` on that `irqs` has a source in; 5 if none.
pub open spec fn next_bank(irqs: u64, from: nat) -> nat
    decreases 5 - from,
{
    if from >= 5 {
        5
    } else if irqs & bank_mask(from) != 0 {
        from
    } else {
        next_bank(irqs, from + 1)
    }
}

/// Sets or clears the events of `irqs` in the enable registers of the banks
/// that `irqs` has a source in, keeping the other bits of those registers;
/// the other banks' registers are neither read nor written.
pub struct ToggleIrq {
    pub address: u8,
    pub irqs: EventsIrq,
    pub enable: bool,
    /// The bank being handled.
    pub bank: usize,
    /// Whether the read of `bank` is awaited; else its write.
    pub reading: bool,
    pub finished: bool,
}

impl ToggleIrq {
    /// Goes on at the first bank from `from` on that `irqs` has a source in.
    pub open spec fn visit<E>(self, from: nat) -> (ToggleIrq, Action<(), E>) {
        let b = next_bank(self.irqs.bits, from);
        if b >= 5 {
            (ToggleIrq { bank: 5, reading: false, finished: true, ..self }, Action::Done(Ok(())))
        } else {
            (
                ToggleIrq { bank: b as usize, reading: true, ..self },
                Action::Read { address: self.address, register: enabled_irq_addr(b) },
            )
        }
    }

    pub open spec fn next<E>(self, reply: Result<u8, E>) -> (ToggleIrq, Action<(), E>) {
        match reply {
            Err(e) => (ToggleIrq { finished: true, ..self }, Action::Done(Err(Error::I2cError(e)))),
            Ok(v) => if self.reading {
                (
                    ToggleIrq { reading: false, ..self },
                    Action::Write {
                        address: self.address,
                        register: enabled_irq_addr(self.bank as nat),
                        value: toggled_byte(v, bank_byte(self.irqs.bits, self.bank as nat), self.enable),
                    },
                )
            } else {
                self.visit((self.bank + 1) as nat)
            },
        }
    }

    pub open spec fn running(self) -> bool {
        !self.finished && self.bank < 5
    }

    pub fn is_running(&self) -> (r: bool)
        ensures
            r == self.running(),
    {
        !self.finished && self.bank < 5
    }

    fn visit_from<E>(&mut self, from: usize) -> (r: Action<(), E>)
        requires
            from <= 5,
        ensures
            (*final(self), r) == old(self).visit::<E>(from as nat),
    {
        let mut b: usize = from;
        while b < IRQ_BANKS && !self.irqs.is_bank(b)
            invariant
                from <= b <= 5,
                next_bank(self.irqs.bits, from as nat) == next_bank(self.irqs.bits, b as nat),
            decreases 5 - b,
        {
            b = b + 1;
        }
        if b >= IRQ_BANKS {
            self.bank = 5;
            self.reading = false;
            self.finished = true;
            Action::Done(Ok(()))
        } else {
            self.bank = b;
            self.reading = true;
            Action::Read { address: self.address, register: enabled_irq(b).addr() }
        }
    }

    /// Takes the reply to the last action and returns the next one.
    pub fn step<E>(&mut self, reply: Result<u8, E>) -> (r: Action<(), E>)
        requires
            old(self).running(),
        ensures
            (*final(self), r) == old(self).next(reply),
            final(self).finished || final(self).bank < 5,
    {
        match reply {
            Err(e) => {
                self.finished = true;
                Action::Done(Err(Error::I2cError(e)))
            },
            Ok(v) => {
                if self.reading {
                    let current = EventsIrq::from_bank_u8(self.bank, v);
                    let value = current.toggle(self.irqs, self.enable).into_bank_u8(self.bank);
                    proof {
                        lemma_bank_byte_toggle(v, self.irqs.bits, self.bank as nat, self.enable);
                    }
                    self.reading = false;
                    Action::Write { address: self.address, register: enabled_irq(self.bank).addr(), value }
                } else {
                    self.visit_from(self.bank + 1)
                }
            },
        }
    }
}

impl Axpxx {
    /// Starts reading and clearing the pending interrupt events.
    pub fn read_irq<E>(&self) -> (r: (ReadIrq, Action<EventsIrq, E>))
        ensures
            r.0 == (ReadIrq { address: self.spec_address(), stage: 0, events: 0 }),
            r.1 == (Action::<EventsIrq, E>::Read { address: self.spec_address(), register: status_irq_addr(0) }),
    {
        (
            ReadIrq { address: self.address, stage: 0, events: 0 },
            Action::Read { address: self.address, register: status_irq(0).addr() },
        )
    }

    /// Starts clearing the pending interrupt events.
    pub fn clear_irq<E>(&self) -> (r: (ClearIrq, Action<(), E>))
        ensures
            r.0 == (ClearIrq { address: self.spec_address(), stage: 0 }),
            r.1 == (Action::<(), E>::Write {
                address: self.spec_address(),
                register: status_irq_addr(0),
                value: 0xff,
            }),
    {
        (
            ClearIrq { address: self.address, stage: 0 },
            Action::Write { address: self.address, register: status_irq(0).addr(), value: 0xff },
        )
    }

    /// Starts enabling (`enable`) or disabling the interrupt events of `irqs`.
    pub fn toggle_irq<E>(&self, irqs: EventsIrq, enable: bool) -> (r: (ToggleIrq, Action<(), E>))
        ensures
            r == (ToggleIrq {
                address: self.spec_address(),
                irqs,
                enable,
                bank: 0,
                reading: false,
                finished: false,
            }).visit::<E>(0),
    {
        let mut m = ToggleIrq { address: self.address, irqs, enable, bank: 0, reading: false, finished: false };
        let a = m.visit_from(0);
        (m, a)
    }
}

} // verus!
