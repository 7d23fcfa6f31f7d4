//! Register-level driver for AXP20x-family power-management chips.
//!
//! `bits` holds the bit sets of the chip's registers, `regs` the register map,
//! chip identities and errors, `device` the device handle and its operations
//! as bus-independent state machines, and `model` what those operations do to
//! a chip modelled as a register file.
pub mod bits;
pub mod device;
pub mod model;
pub mod regs;

pub use bits::{Charge, EventsIrq, Power, PowerInputStatus, PowerState};
pub use device::{
    Action, Axpxx, ByteRead, ClearIrq, FlagRead, Init, RailStage, ReadIrq, SetPowerOutput, State,
    ToggleIrq, VoltageRead,
};
pub use regs::{ChipId, Error, Register};
