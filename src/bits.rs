//! Bit sets of the chip's registers: power rails, input status, charge flag
//! and the 40 interrupt sources spread over five 8-bit banks.
use vstd::prelude::*;

verus! {

/// Number of 8-bit interrupt banks.
pub const IRQ_BANKS: usize = 5;

/// Requested state of a power rail.
#[derive(Debug, Clone, Copy, PartialEq, Eq, Structural)]
pub enum PowerState {
    On,
    Off,
}

/// Flags of the power-input status register.
#[derive(Debug, Clone, Copy, PartialEq, Eq, Structural)]
pub struct PowerInputStatus {
    pub bits: u8,
}

impl PowerInputStatus {
    pub const BOOT_SOURCE: u8 = 0x01;
    pub const ACIN_VBUS_SHORT_CIRCUIT: u8 = 0x02;
    pub const CURRENT_DIRECTION: u8 = 0x04;
    pub const VBUS_ABOVE: u8 = 0x08;
    pub const VBUS_USABLE: u8 = 0x10;
    pub const VBUS_PRESENCE: u8 = 0x20;
    pub const ACIN_USABLE: u8 = 0x40;
    pub const ACIN_PRESENCE: u8 = 0x80;

    pub fn from_bits(bits: u8) -> (r: Self)
        ensures
            r.bits == bits,
    {
        PowerInputStatus { bits }
    }

    /// Whether any flag of `flags` is set.
    pub fn intersects(&self, flags: u8) -> (r: bool)
        ensures
            r == (self.bits & flags != 0),
    {
        self.bits & flags != 0
    }
}

/// Rails of the rail-control register.
#[derive(Debug, Clone, Copy, PartialEq, Eq, Structural)]
pub struct Power {
    pub bits: u8,
}

impl Power {
    pub const EXTEN: u8 = 0x01;
    pub const DCDC3: u8 = 0x02;
    pub const LDO2: u8 = 0x04;
    pub const LDO4: u8 = 0x08;
    pub const DCDC2: u8 = 0x10;
    pub const LDO3: u8 = 0x40;

    pub fn from_bits(bits: u8) -> (r: Self)
        ensures
            r.bits == bits,
    {
        Power { bits }
    }

    /// The set of rails of both operands.
    pub fn union(self, other: Power) -> (r: Power)
        ensures
            r.bits == self.bits | other.bits,
    {
        Power { bits: self.bits | other.bits }
    }

    /// The rails of `self` that are not in `other`.
    pub fn difference(self, other: Power) -> (r: Power)
        ensures
            r.bits == self.bits & !other.bits,
    {
        Power { bits: self.bits & !other.bits }
    }
}

/// Flags of the charge register.
#[derive(Debug, Clone, Copy, PartialEq, Eq, Structural)]
pub struct Charge {
    pub bits: u8,
}

impl Charge {
    pub const CHARGING: u8 = 0x80;

    pub fn from_bits(bits: u8) -> (r: Self)
        ensures
            r.bits == bits,
    {
        Charge { bits }
    }

    pub fn is_charging(&self) -> (r: bool)
        ensures
            r == (self.bits & Self::CHARGING != 0),
    {
        self.bits & Self::CHARGING != 0
    }
}

/// Number of bits that bank `n` is shifted by in the logical mask.
pub open spec fn bank_shift(n: nat) -> u64 {
    (8 * n) as u64
}

/// The bits of the logical mask that bank `n` occupies.
pub open spec fn bank_mask(n: nat) -> u64 {
    0xffu64 << bank_shift(n)
}

/// The raw byte of bank `n` in a logical mask.
pub open spec fn bank_byte(m: u64, n: nat) -> u8 {
    ((m >> bank_shift(n)) & 0xff) as u8
}

/// A raw byte of bank `n` placed into the logical mask.
pub open spec fn bank_bits(b: u8, n: nat) -> u64 {
    (b as u64) << bank_shift(n)
}

/// Logical set of interrupt sources: bit `8n + i` is bit `i` of bank `n`.
#[derive(Debug, Clone, Copy, PartialEq, Eq, Structural)]
pub struct EventsIrq {
    pub bits: u64,
}

impl EventsIrq {
    pub const POWER_KEY_SHORT_PRESS: u64 = 0x2_0000;
    pub const INT1: u64 = 0xff;
    pub const INT2: u64 = 0xff00;
    pub const INT3: u64 = 0xff_0000;
    pub const INT4: u64 = 0xff00_0000;
    pub const INT5: u64 = 0xff_0000_0000;

    pub fn from_bits(bits: u64) -> (r: Self)
        ensures
            r.bits == bits,
    {
        EventsIrq { bits }
    }

    pub fn empty() -> (r: Self)
        ensures
            r.bits == 0,
    {
        EventsIrq { bits: 0 }
    }

    pub fn union(self, other: EventsIrq) -> (r: EventsIrq)
        ensures
            r.bits == self.bits | other.bits,
    {
        EventsIrq { bits: self.bits | other.bits }
    }

    pub fn intersection(self, other: EventsIrq) -> (r: EventsIrq)
        ensures
            r.bits == self.bits & other.bits,
    {
        EventsIrq { bits: self.bits & other.bits }
    }

    pub fn intersects(&self, other: EventsIrq) -> (r: bool)
        ensures
            r == (self.bits & other.bits != 0),
    {
        self.bits & other.bits != 0
    }

    /// Sources of `self` and of `current` when `enable`, else the sources of
    /// `self` that are not in `current`.
    pub fn toggle(self, current: EventsIrq, enable: bool) -> (r: EventsIrq)
        ensures
            r.bits == (if enable { self.bits | current.bits } else { self.bits & !current.bits }),
    {
        if enable {
            self.union(current)
        } else {
            EventsIrq { bits: self.bits & !current.bits }
        }
    }

    /// Whether the set holds a source of bank `n`.
    pub fn is_bank(&self, n: usize) -> (r: bool)
        requires
            n < IRQ_BANKS,
        ensures
            r == (self.bits & bank_mask(n as nat) != 0),
    {
        let s: u64 = 8 * n as u64;
        self.bits & (0xffu64 << s) != 0
    }

    /// The raw register byte of bank `n`.
    pub fn into_bank_u8(&self, n: usize) -> (r: u8)
        requires
            n < IRQ_BANKS,
        ensures
            r == bank_byte(self.bits, n as nat),
    {
        let s: u64 = 8 * n as u64;
        ((self.bits >> s) & 0xff) as u8
    }

    /// The sources that a raw register byte of bank `n` stands for.
    pub fn from_bank_u8(n: usize, val: u8) -> (r: EventsIrq)
        requires
            n < IRQ_BANKS,
        ensures
            r.bits == bank_bits(val, n as nat),
            r.bits & !bank_mask(n as nat) == 0,
    {
        let s: u64 = 8 * n as u64;
        proof {
            lemma_bank_bits_inside(val, s);
        }
        EventsIrq { bits: (val as u64) << s }
    }

    pub fn is_int1(&self) -> (r: bool)
        ensures
            r == (self.bits & bank_mask(0) != 0),
    {
        self.is_bank(0)
    }

    pub fn is_int2(&self) -> (r: bool)
        ensures
            r == (self.bits & bank_mask(1) != 0),
    {
        self.is_bank(1)
    }

    pub fn is_int3(&self) -> (r: bool)
        ensures
            r == (self.bits & bank_mask(2) != 0),
    {
        self.is_bank(2)
    }

    pub fn is_int4(&self) -> (r: bool)
        ensures
            r == (self.bits & bank_mask(3) != 0),
    {
        self.is_bank(3)
    }

    pub fn is_int5(&self) -> (r: bool)
        ensures
            r == (self.bits & bank_mask(4) != 0),
    {
        self.is_bank(4)
    }

    pub fn into_int1_u8(&self) -> (r: u8)
        ensures
            r == bank_byte(self.bits, 0),
    {
        self.into_bank_u8(0)
    }

    pub fn into_int2_u8(&self) -> (r: u8)
        ensures
            r == bank_byte(self.bits, 1),
    {
        self.into_bank_u8(1)
    }

    pub fn into_int3_u8(&self) -> (r: u8)
        ensures
            r == bank_byte(self.bits, 2),
    {
        self.into_bank_u8(2)
    }

    pub fn into_int4_u8(&self) -> (r: u8)
        ensures
            r == bank_byte(self.bits, 3),
    {
        self.into_bank_u8(3)
    }

    pub fn into_int5_u8(&self) -> (r: u8)
        ensures
            r == bank_byte(self.bits, 4),
    {
        self.into_bank_u8(4)
    }

    pub fn from_int1_u8(val: u8) -> (r: EventsIrq)
        ensures
            r.bits == bank_bits(val, 0),
    {
        Self::from_bank_u8(0, val)
    }

    pub fn from_int2_u8(val: u8) -> (r: EventsIrq)
        ensures
            r.bits == bank_bits(val, 1),
    {
        Self::from_bank_u8(1, val)
    }

    pub fn from_int3_u8(val: u8) -> (r: EventsIrq)
        ensures
            r.bits == bank_bits(val, 2),
    {
        Self::from_bank_u8(2, val)
    }

    pub fn from_int4_u8(val: u8) -> (r: EventsIrq)
        ensures
            r.bits == bank_bits(val, 3),
    {
        Self::from_bank_u8(3, val)
    }

    pub fn from_int5_u8(val: u8) -> (r: EventsIrq)
        ensures
            r.bits == bank_bits(val, 4),
    {
        Self::from_bank_u8(4, val)
    }
}

proof fn lemma_bank_bits_inside(b: u8, s: u64)
    requires
        s <= 32,
    ensures
        ((b as u64) << s) & !(0xffu64 << s) == 0,
{
    assert(((b as u64) << s) & !(0xffu64 << s) == 0) by (bit_vector)
        requires
            s <= 32,
    ;
}

/// Placing a raw byte into bank `n` and reading bank `n` back gives the byte,
/// and no two bytes are placed alike.
pub proof fn lemma_bank_round_trip(b: u8, c: u8, n: nat)
    requires
        n < IRQ_BANKS,
    ensures
        bank_byte(bank_bits(b, n), n) == b,
        bank_bits(b, n) == bank_bits(c, n) ==> b == c,
{
    let s = bank_shift(n);
    assert(s <= 32);
    assert((((b as u64) << s) >> s) & 0xff == b as u64) by (bit_vector)
        requires
            s <= 32,
    ;
    assert((((c as u64) << s) >> s) & 0xff == c as u64) by (bit_vector)
        requires
            s <= 32,
    ;
}

/// A bank's byte with the bits of `req` set when `enable`, else cleared.
pub open spec fn toggled_byte(cur: u8, req: u8, enable: bool) -> u8 {
    if enable {
        cur | req
    } else {
        cur & !req
    }
}

/// Reading bank `n` of a raw byte placed there and then combined with `m`
/// gives the byte combined with bank `n` of `m`.
pub proof fn lemma_bank_byte_toggle(v: u8, m: u64, n: nat, enable: bool)
    requires
        n < IRQ_BANKS,
    ensures
        bank_byte(
            if enable {
                bank_bits(v, n) | m
            } else {
                bank_bits(v, n) & !m
            },
            n,
        ) == toggled_byte(v, bank_byte(m, n), enable),
{
    let s = bank_shift(n);
    assert(s <= 32);
    assert((((((v as u64) << s) | m) >> s) & 0xff) as u8 == v | (((m >> s) & 0xff) as u8))
        by (bit_vector)
        requires
            s <= 32,
    ;
    assert((((((v as u64) << s) & !m) >> s) & 0xff) as u8 == v & !(((m >> s) & 0xff) as u8))
        by (bit_vector)
        requires
            s <= 32,
    ;
}

} // verus!
