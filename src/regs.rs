//! Register map, chip identities and errors.
use vstd::prelude::*;

verus! {

/// Bus address of the chip unless another one is configured.
pub const DEFAULT_ADDRESS: u8 = 0x35;

/// Registers of the chip that the driver uses.
#[derive(Debug, Clone, Copy, PartialEq, Eq, Structural)]
pub enum Register {
    PowerInputStatus,
    PowerWorkingModeChargeStatus,
    IcType,
    Ldo234Dc23Ctl,
    Charge1,
    EnabledIrq1,
    EnabledIrq2,
    EnabledIrq3,
    EnabledIrq4,
    EnabledIrq5,
    StatusIrq1,
    StatusIrq2,
    StatusIrq3,
    StatusIrq4,
    StatusIrq5,
    BatteryAverageVoltageHigh8b,
    BatteryAverageVoltageLow4b,
    BatteryPercentage,
}

impl Register {
    pub open spec fn spec_addr(self) -> u8 {
        match self {
            Register::PowerInputStatus => 0x00,
            Register::PowerWorkingModeChargeStatus => 0x01,
            Register::IcType => 0x03,
            Register::Ldo234Dc23Ctl => 0x12,
            Register::Charge1 => 0x33,
            Register::EnabledIrq1 => 0x40,
            Register::EnabledIrq2 => 0x41,
            Register::EnabledIrq3 => 0x42,
            Register::EnabledIrq4 => 0x43,
            Register::EnabledIrq5 => 0x45,
            Register::StatusIrq1 => 0x48,
            Register::StatusIrq2 => 0x49,
            Register::StatusIrq3 => 0x4a,
            Register::StatusIrq4 => 0x4b,
            Register::StatusIrq5 => 0x4c,
            Register::BatteryAverageVoltageHigh8b => 0x78,
            Register::BatteryAverageVoltageLow4b => 0x79,
            Register::BatteryPercentage => 0xb9,
        }
    }

    /// The register's address on the chip.
    pub fn addr(self) -> (r: u8)
        ensures
            r == self.spec_addr(),
    {
        match self {
            Register::PowerInputStatus => 0x00,
            Register::PowerWorkingModeChargeStatus => 0x01,
            Register::IcType => 0x03,
            Register::Ldo234Dc23Ctl => 0x12,
            Register::Charge1 => 0x33,
            Register::EnabledIrq1 => 0x40,
            Register::EnabledIrq2 => 0x41,
            Register::EnabledIrq3 => 0x42,
            Register::EnabledIrq4 => 0x43,
            Register::EnabledIrq5 => 0x45,
            Register::StatusIrq1 => 0x48,
            Register::StatusIrq2 => 0x49,
            Register::StatusIrq3 => 0x4a,
            Register::StatusIrq4 => 0x4b,
            Register::StatusIrq5 => 0x4c,
            Register::BatteryAverageVoltageHigh8b => 0x78,
            Register::BatteryAverageVoltageLow4b => 0x79,
            Register::BatteryPercentage => 0xb9,
        }
    }
}

/// Address of the enable register of interrupt bank `n`.
pub open spec fn enabled_irq_addr(n: nat) -> u8 {
    if n == 0 {
        0x40
    } else if n == 1 {
        0x41
    } else if n == 2 {
        0x42
    } else if n == 3 {
        0x43
    } else {
        0x45
    }
}

/// Address of the status register of interrupt bank `n`.
pub open spec fn status_irq_addr(n: nat) -> u8 {
    (0x48 + n) as u8
}

/// The enable register of interrupt bank `n`.
pub fn enabled_irq(n: usize) -> (r: Register)
    requires
        n < 5,
    ensures
        r.spec_addr() == enabled_irq_addr(n as nat),
{
    if n == 0 {
        Register::EnabledIrq1
    } else if n == 1 {
        Register::EnabledIrq2
    } else if n == 2 {
        Register::EnabledIrq3
    } else if n == 3 {
        Register::EnabledIrq4
    } else {
        Register::EnabledIrq5
    }
}

/// The status register of interrupt bank `n`.
pub fn status_irq(n: usize) -> (r: Register)
    requires
        n < 5,
    ensures
        r.spec_addr() == status_irq_addr(n as nat),
{
    if n == 0 {
        Register::StatusIrq1
    } else if n == 1 {
        Register::StatusIrq2
    } else if n == 2 {
        Register::StatusIrq3
    } else if n == 3 {
        Register::StatusIrq4
    } else {
        Register::StatusIrq5
    }
}

/// Identity of the chip, read once at initialisation.
#[derive(Debug, Clone, Copy, PartialEq, Eq, Structural)]
pub enum ChipId {
    Unknown,
    Axp202,
    Axp192,
    Axp173,
}

impl ChipId {
    pub open spec fn spec_from_u8(code: u8) -> ChipId {
        if code == 0x41 {
            ChipId::Axp202
        } else if code == 0x03 {
            ChipId::Axp192
        } else if code == 0xad {
            ChipId::Axp173
        } else {
            ChipId::Unknown
        }
    }

    /// Decodes the identity register; a code that names no known chip is `Unknown`.
    pub fn from_u8(code: u8) -> (r: ChipId)
        ensures
            r == Self::spec_from_u8(code),
    {
        if code == 0x41 {
            ChipId::Axp202
        } else if code == 0x03 {
            ChipId::Axp192
        } else if code == 0xad {
            ChipId::Axp173
        } else {
            ChipId::Unknown
        }
    }

    /// The identity register's code of a known chip; `Unknown` has 0.
    pub fn code(self) -> (r: u8)
        ensures
            self != ChipId::Unknown ==> Self::spec_from_u8(r) == self,
            self == ChipId::Unknown ==> r == 0,
    {
        match self {
            ChipId::Unknown => 0x00,
            ChipId::Axp202 => 0x41,
            ChipId::Axp192 => 0x03,
            ChipId::Axp173 => 0xad,
        }
    }
}

/// Errors of the driver's operations; `E` is the bus's own error.
#[derive(Debug, PartialEq, Eq)]
pub enum Error<E> {
    /// The operation needs an initialised device.
    Uninitialized,
    /// The bus failed; its error is passed on unchanged.
    I2cError(E),
    /// The rail-control register read back another value than was written.
    WriteVerification,
    /// The rail-control register kept reading zero for the whole poll budget.
    Timeout,
}

impl<E> From<E> for Error<E> {
    fn from(err: E) -> (r: Self)
        ensures
            r == Error::I2cError(err),
    {
        Error::I2cError(err)
    }
}

impl<E> vstd::std_specs::convert::FromSpecImpl<E> for Error<E> {
    open spec fn obeys_from_spec() -> bool {
        true
    }

    open spec fn from_spec(err: E) -> Self {
        Error::I2cError(err)
    }
}

} // verus!
