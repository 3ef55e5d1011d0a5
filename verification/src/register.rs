//! The register map: the addressable locations of the device and the named
//! bit masks inside its status and configuration registers.
//!
//! Registers live on one of two address spaces: the primary volatile space
//! and the nonvolatile-shadow space, reached through a distinct bus address.
//! Flags are opaque bit masks; `has_code` tests whether a flag is set in a
//! raw register value. No two flags of one enumeration share a bit.

use vstd::prelude::*;

verus! {

/// The registers of the primary volatile address space.
#[derive(Clone, Copy, Debug, PartialEq)]
pub enum Register {
    DevName,
    Status,
    RepCap,
    RepSoc,
    VCell,
    Temp,
    Current,
    TimeToEmpty,
    TimeToFull,
    ProtStatus,
    ProtAlrt,
    CommStat,
    Cell1,
    Cell2,
    Cell3,
    Cell4,
    Batt,
    Pckp,
    DieTemp,
    Config,
    Config2,
    VAlrtTh,
    TAlrtTh,
    SAlrtTh,
    IAlrtTh,
    AgeForecast,
    Age,
    Cycles,
    RCell,
}

impl Register {
    /// The numeric address of the register on the primary address space.
    pub open spec fn spec_addr(self) -> u8 {
        match self {
            Register::DevName => 0x21,
            Register::Status => 0x00,
            Register::RepCap => 0x05,
            Register::RepSoc => 0x06,
            Register::VCell => 0x1A,
            Register::Temp => 0x1B,
            Register::Current => 0x1C,
            Register::TimeToEmpty => 0x11,
            Register::TimeToFull => 0x20,
            Register::ProtStatus => 0xD9,
            Register::ProtAlrt => 0xAF,
            Register::CommStat => 0x61,
            Register::Cell1 => 0xD8,
            Register::Cell2 => 0xD7,
            Register::Cell3 => 0xD6,
            Register::Cell4 => 0xD5,
            Register::Batt => 0xDA,
            Register::Pckp => 0xDB,
            Register::DieTemp => 0x34,
            Register::Config => 0x0B,
            Register::Config2 => 0xAB,
            Register::VAlrtTh => 0x01,
            Register::TAlrtTh => 0x02,
            Register::SAlrtTh => 0x03,
            Register::IAlrtTh => 0xAC,
            Register::AgeForecast => 0xB9,
            Register::Age => 0x07,
            Register::Cycles => 0x17,
            Register::RCell => 0x14,
        }
    }

    /// The numeric address of the register on the primary address space.
    pub fn addr(self) -> (r: u8)
        ensures
            r == self.spec_addr(),
    {
        match self {
            Register::DevName => 0x21,
            Register::Status => 0x00,
            Register::RepCap => 0x05,
            Register::RepSoc => 0x06,
            Register::VCell => 0x1A,
            Register::Temp => 0x1B,
            Register::Current => 0x1C,
            Register::TimeToEmpty => 0x11,
            Register::TimeToFull => 0x20,
            Register::ProtStatus => 0xD9,
            Register::ProtAlrt => 0xAF,
            Register::CommStat => 0x61,
            Register::Cell1 => 0xD8,
            Register::Cell2 => 0xD7,
            Register::Cell3 => 0xD6,
            Register::Cell4 => 0xD5,
            Register::Batt => 0xDA,
            Register::Pckp => 0xDB,
            Register::DieTemp => 0x34,
            Register::Config => 0x0B,
            Register::Config2 => 0xAB,
            Register::VAlrtTh => 0x01,
            Register::TAlrtTh => 0x02,
            Register::SAlrtTh => 0x03,
            Register::IAlrtTh => 0xAC,
            Register::AgeForecast => 0xB9,
            Register::Age => 0x07,
            Register::Cycles => 0x17,
            Register::RCell => 0x14,
        }
    }
}

/// The registers of the nonvolatile-shadow address space.
#[derive(Clone, Copy, Debug, PartialEq)]
pub enum RegisterNvm {
    NBattStatus,
    NPackCfg,
    NConfig,
    NVAlrtTh,
    NTAlrtTh,
    NSAlrtTh,
    NIAlrtTh,
}

impl RegisterNvm {
    /// The numeric address of the register on the nonvolatile-shadow space.
    pub open spec fn spec_addr(self) -> u8 {
        match self {
            RegisterNvm::NBattStatus => 0xA8,
            RegisterNvm::NPackCfg => 0xB5,
            RegisterNvm::NConfig => 0xB0,
            RegisterNvm::NVAlrtTh => 0x8C,
            RegisterNvm::NTAlrtTh => 0x8D,
            RegisterNvm::NSAlrtTh => 0x8F,
            RegisterNvm::NIAlrtTh => 0x8E,
        }
    }

    /// The numeric address of the register on the nonvolatile-shadow space.
    pub fn addr(self) -> (r: u8)
        ensures
            r == self.spec_addr(),
    {
        match self {
            RegisterNvm::NBattStatus => 0xA8,
            RegisterNvm::NPackCfg => 0xB5,
            RegisterNvm::NConfig => 0xB0,
            RegisterNvm::NVAlrtTh => 0x8C,
            RegisterNvm::NTAlrtTh => 0x8D,
            RegisterNvm::NSAlrtTh => 0x8F,
            RegisterNvm::NIAlrtTh => 0x8E,
        }
    }
}

/// The flags of the status register.
#[derive(Clone, Copy, Debug, PartialEq)]
pub enum StatusCode {
    /// Power-on reset has been detected; cleared by system software.
    PowerOnReset,
    /// A current reading fell below the minimum alert threshold.
    MinCurrentExceeded,
    /// A current reading rose above the maximum alert threshold.
    MaxCurrentExceeded,
    /// The reported state of charge crossed an integer percent boundary.
    Soc1PercentChange,
    /// A cell voltage reading fell below the minimum alert threshold.
    MinVoltageExceeded,
    /// A temperature reading fell below the minimum alert threshold.
    MinTemperatureExceeded,
    /// The state of charge fell below the minimum alert threshold.
    MinSocExceeded,
    /// A cell voltage reading rose above the maximum alert threshold.
    MaxVoltageExceeded,
    /// A temperature reading rose above the maximum alert threshold.
    MaxTemperatureExceeded,
    /// The state of charge rose above the maximum alert threshold.
    MaxSocExceeded,
    /// A protection event occurred; details are in the protection-alert
    /// register, which must be cleared first.
    ProtectionAlert,
}

impl StatusCode {
    /// The bit position of the flag inside the status register.
    pub open spec fn spec_bit(self) -> u16 {
        match self {
            StatusCode::PowerOnReset => 1,
            StatusCode::MinCurrentExceeded => 2,
            StatusCode::MaxCurrentExceeded => 6,
            StatusCode::Soc1PercentChange => 7,
            StatusCode::MinVoltageExceeded => 8,
            StatusCode::MinTemperatureExceeded => 9,
            StatusCode::MinSocExceeded => 10,
            StatusCode::MaxVoltageExceeded => 12,
            StatusCode::MaxTemperatureExceeded => 13,
            StatusCode::MaxSocExceeded => 14,
            StatusCode::ProtectionAlert => 15,
        }
    }

    /// The bit mask of the flag inside the status register.
    pub open spec fn spec_mask(self) -> u16 {
        1u16 << self.spec_bit()
    }

    /// The bit mask of the flag inside the status register.
    pub fn mask(self) -> (r: u16)
        ensures
            r == self.spec_mask(),
    {
        match self {
            StatusCode::PowerOnReset => 1u16 << 1,
            StatusCode::MinCurrentExceeded => 1u16 << 2,
            StatusCode::MaxCurrentExceeded => 1u16 << 6,
            StatusCode::Soc1PercentChange => 1u16 << 7,
            StatusCode::MinVoltageExceeded => 1u16 << 8,
            StatusCode::MinTemperatureExceeded => 1u16 << 9,
            StatusCode::MinSocExceeded => 1u16 << 10,
            StatusCode::MaxVoltageExceeded => 1u16 << 12,
            StatusCode::MaxTemperatureExceeded => 1u16 << 13,
            StatusCode::MaxSocExceeded => 1u16 << 14,
            StatusCode::ProtectionAlert => 1u16 << 15,
        }
    }
}

/// The fault flags of the protection-status register.
#[derive(Clone, Copy, Debug, PartialEq)]
pub enum ProtStatusCode {
    /// The device is in ship state.
    Ship,
    /// Reserved fault flag; the datasheet does not name its meaning.
    ResDFault,
    /// Overdischarge current (discharging fault).
    OverdischargeCurrent,
    /// Undervoltage (discharging fault).
    Undervoltage,
    /// Overtemperature while discharging (discharging fault).
    OvertemperatureDischarging,
    /// Overtemperature of the die (discharging fault).
    OvertemperatureDie,
    /// Permanent failure detected.
    PermFail,
    /// Multicell imbalance (charging fault).
    MulticellImbalance,
    /// Prequalification timeout (charging fault).
    PrequalTimeout,
    /// Capacity overflow (charging fault).
    CapacityOverflow,
    /// Overcharge current (charging fault).
    OverchargeCurrent,
    /// Overvoltage (charging fault).
    Overvoltage,
    /// Undertemperature while charging (charging fault).
    UndertemperatureCharging,
    /// Full detection (charging fault).
    Full,
    /// Overtemperature while charging (charging fault).
    OvertemperatureCharging,
    /// Charge communication watchdog timer (charging fault).
    ChargeWatchDogTimer,
}

impl ProtStatusCode {
    /// The bit position of the flag inside the protection-status register.
    pub open spec fn spec_bit(self) -> u16 {
        match self {
            ProtStatusCode::Ship => 0,
            ProtStatusCode::ResDFault => 1,
            ProtStatusCode::OverdischargeCurrent => 2,
            ProtStatusCode::Undervoltage => 3,
            ProtStatusCode::OvertemperatureDischarging => 4,
            ProtStatusCode::OvertemperatureDie => 5,
            ProtStatusCode::PermFail => 6,
            ProtStatusCode::MulticellImbalance => 7,
            ProtStatusCode::PrequalTimeout => 8,
            ProtStatusCode::CapacityOverflow => 9,
            ProtStatusCode::OverchargeCurrent => 10,
            ProtStatusCode::Overvoltage => 11,
            ProtStatusCode::UndertemperatureCharging => 12,
            ProtStatusCode::Full => 13,
            ProtStatusCode::OvertemperatureCharging => 14,
            ProtStatusCode::ChargeWatchDogTimer => 15,
        }
    }

    /// The bit mask of the flag inside the protection-status register.
    pub open spec fn spec_mask(self) -> u16 {
        1u16 << self.spec_bit()
    }

    /// The bit mask of the flag inside the protection-status register.
    pub fn mask(self) -> (r: u16)
        ensures
            r == self.spec_mask(),
    {
        match self {
            ProtStatusCode::Ship => 1u16 << 0,
            ProtStatusCode::ResDFault => 1u16 << 1,
            ProtStatusCode::OverdischargeCurrent => 1u16 << 2,
            ProtStatusCode::Undervoltage => 1u16 << 3,
            ProtStatusCode::OvertemperatureDischarging => 1u16 << 4,
            ProtStatusCode::OvertemperatureDie => 1u16 << 5,
            ProtStatusCode::PermFail => 1u16 << 6,
            ProtStatusCode::MulticellImbalance => 1u16 << 7,
            ProtStatusCode::PrequalTimeout => 1u16 << 8,
            ProtStatusCode::CapacityOverflow => 1u16 << 9,
            ProtStatusCode::OverchargeCurrent => 1u16 << 10,
            ProtStatusCode::Overvoltage => 1u16 << 11,
            ProtStatusCode::UndertemperatureCharging => 1u16 << 12,
            ProtStatusCode::Full => 1u16 << 13,
            ProtStatusCode::OvertemperatureCharging => 1u16 << 14,
            ProtStatusCode::ChargeWatchDogTimer => 1u16 << 15,
        }
    }
}

/// The fault flags of the protection-alert register, the sticky history of
/// the protection-status register.
#[derive(Clone, Copy, Debug, PartialEq)]
pub enum ProtAlertCode {
    /// A leakage detection fault has been detected.
    LeakageDetectionFault,
    /// Reserved fault flag; the datasheet does not name its meaning.
    ResDFault,
    /// Overdischarge current (discharging fault).
    OverdischargeCurrent,
    /// Undervoltage (discharging fault).
    Undervoltage,
    /// Overtemperature while discharging (discharging fault).
    OvertemperatureDischarging,
    /// Overtemperature of the die (discharging fault).
    OvertemperatureDie,
    /// Permanent failure detected.
    PermFail,
    /// Multicell imbalance (charging fault).
    MulticellImbalance,
    /// Prequalification timeout (charging fault).
    PrequalTimeout,
    /// Capacity overflow (charging fault).
    CapacityOverflow,
    /// Overcharge current (charging fault).
    OverchargeCurrent,
    /// Overvoltage (charging fault).
    Overvoltage,
    /// Undertemperature while charging (charging fault).
    UndertemperatureCharging,
    /// Full detection (charging fault).
    Full,
    /// Overtemperature while charging (charging fault).
    OvertemperatureCharging,
    /// Charge communication watchdog timer (charging fault).
    ChargeWatchDogTimer,
}

impl ProtAlertCode {
    /// The bit position of the flag inside the protection-alert register.
    pub open spec fn spec_bit(self) -> u16 {
        match self {
            ProtAlertCode::LeakageDetectionFault => 0,
            ProtAlertCode::ResDFault => 1,
            ProtAlertCode::OverdischargeCurrent => 2,
            ProtAlertCode::Undervoltage => 3,
            ProtAlertCode::OvertemperatureDischarging => 4,
            ProtAlertCode::OvertemperatureDie => 5,
            ProtAlertCode::PermFail => 6,
            ProtAlertCode::MulticellImbalance => 7,
            ProtAlertCode::PrequalTimeout => 8,
            ProtAlertCode::CapacityOverflow => 9,
            ProtAlertCode::OverchargeCurrent => 10,
            ProtAlertCode::Overvoltage => 11,
            ProtAlertCode::UndertemperatureCharging => 12,
            ProtAlertCode::Full => 13,
            ProtAlertCode::OvertemperatureCharging => 14,
            ProtAlertCode::ChargeWatchDogTimer => 15,
        }
    }

    /// The bit mask of the flag inside the protection-alert register.
    pub open spec fn spec_mask(self) -> u16 {
        1u16 << self.spec_bit()
    }

    /// The bit mask of the flag inside the protection-alert register.
    pub fn mask(self) -> (r: u16)
        ensures
            r == self.spec_mask(),
    {
        match self {
            ProtAlertCode::LeakageDetectionFault => 1u16 << 0,
            ProtAlertCode::ResDFault => 1u16 << 1,
            ProtAlertCode::OverdischargeCurrent => 1u16 << 2,
            ProtAlertCode::Undervoltage => 1u16 << 3,
            ProtAlertCode::OvertemperatureDischarging => 1u16 << 4,
            ProtAlertCode::OvertemperatureDie => 1u16 << 5,
            ProtAlertCode::PermFail => 1u16 << 6,
            ProtAlertCode::MulticellImbalance => 1u16 << 7,
            ProtAlertCode::PrequalTimeout => 1u16 << 8,
            ProtAlertCode::CapacityOverflow => 1u16 << 9,
            ProtAlertCode::OverchargeCurrent => 1u16 << 10,
            ProtAlertCode::Overvoltage => 1u16 << 11,
            ProtAlertCode::UndertemperatureCharging => 1u16 << 12,
            ProtAlertCode::Full => 1u16 << 13,
            ProtAlertCode::OvertemperatureCharging => 1u16 << 14,
            ProtAlertCode::ChargeWatchDogTimer => 1u16 << 15,
        }
    }
}

/// The flags of the communication-status register.
#[derive(Clone, Copy, Debug, PartialEq)]
pub enum CommStatCode {
    /// Forcefully turn off the discharge FET while set.
    DischargeOff,
    /// Forcefully turn off the charge FET while set.
    ChargeOff,
    /// Write protection for one group of register pages.
    WriteProtection5,
    /// Write protection for one group of register pages.
    WriteProtection4,
    /// Write protection for one group of register pages.
    WriteProtection3,
    /// Write protection for one group of register pages.
    WriteProtection2,
    /// Write protection for one group of register pages.
    WriteProtection1,
    /// The previous nonvolatile or authentication command failed; must be
    /// cleared by system software with write protection disabled.
    NonvolatileError,
    /// Nonvolatile memory is busy; clears when the operation completes.
    NonvolatileBusy,
    /// Write protection of all register pages at once.
    WriteProtectionGlobal,
}

impl CommStatCode {
    /// The bit position of the flag inside the communication-status register.
    pub open spec fn spec_bit(self) -> u16 {
        match self {
            CommStatCode::DischargeOff => 9,
            CommStatCode::ChargeOff => 8,
            CommStatCode::WriteProtection5 => 7,
            CommStatCode::WriteProtection4 => 6,
            CommStatCode::WriteProtection3 => 5,
            CommStatCode::WriteProtection2 => 4,
            CommStatCode::WriteProtection1 => 3,
            CommStatCode::NonvolatileError => 2,
            CommStatCode::NonvolatileBusy => 1,
            CommStatCode::WriteProtectionGlobal => 0,
        }
    }

    /// The bit mask of the flag inside the communication-status register.
    pub open spec fn spec_mask(self) -> u16 {
        1u16 << self.spec_bit()
    }

    /// The bit mask of the flag inside the communication-status register.
    pub fn mask(self) -> (r: u16)
        ensures
            r == self.spec_mask(),
    {
        match self {
            CommStatCode::DischargeOff => 1u16 << 9,
            CommStatCode::ChargeOff => 1u16 << 8,
            CommStatCode::WriteProtection5 => 1u16 << 7,
            CommStatCode::WriteProtection4 => 1u16 << 6,
            CommStatCode::WriteProtection3 => 1u16 << 5,
            CommStatCode::WriteProtection2 => 1u16 << 4,
            CommStatCode::WriteProtection1 => 1u16 << 3,
            CommStatCode::NonvolatileError => 1u16 << 2,
            CommStatCode::NonvolatileBusy => 1u16 << 1,
            CommStatCode::WriteProtectionGlobal => 1u16 << 0,
        }
    }
}

/// Whether the flag bits `look_for` are present in the raw value `within`.
pub fn has_code(look_for: u16, within: u16) -> (r: bool)
    ensures
        r == ((look_for & within) > 0),
{
    (look_for & within) > 0
}

/// Set the `k`th bit (0 indexed) of `n`.
pub fn set_bit(n: u16, k: u8) -> (r: u16)
    requires
        k < 16,
    ensures
        r == (n | (1u16 << k)),
{
    n | (1u16 << k)
}

/// Clear the `k`th bit (0 indexed) of `n`.
pub fn clear_bit(n: u16, k: u8) -> (r: u16)
    requires
        k < 16,
    ensures
        r == (n & !(1u16 << k)),
{
    n & !(1u16 << k)
}

/// Two distinct single-bit masks of a 16-bit register never overlap.
proof fn lemma_single_bit_masks_disjoint(i: u16, j: u16)
    requires
        i < 16,
        j < 16,
        i != j,
    ensures
        (1u16 << i) & (1u16 << j) == 0,
{
    assert((1u16 << i) & (1u16 << j) == 0) by (bit_vector)
        requires
            i < 16,
            j < 16,
            i != j,
    ;
}

/// A single-bit mask of a 16-bit register is never zero.
proof fn lemma_single_bit_mask_nonzero(i: u16)
    requires
        i < 16,
    ensures
        (1u16 << i) != 0,
{
    assert((1u16 << i) != 0) by (bit_vector)
        requires
            i < 16,
    ;
}

/// No two flags of the status register share a bit position, and every
/// flag occupies a bit.
pub proof fn lemma_status_codes_disjoint(a: StatusCode, b: StatusCode)
    ensures
        a != b ==> a.spec_mask() & b.spec_mask() == 0,
        a.spec_mask() != 0,
{
    lemma_single_bit_mask_nonzero(a.spec_bit());
    if a != b {
        lemma_single_bit_masks_disjoint(a.spec_bit(), b.spec_bit());
    }
}

/// No two flags of the protection-status register share a bit position,
/// and every flag occupies a bit.
pub proof fn lemma_prot_status_codes_disjoint(a: ProtStatusCode, b: ProtStatusCode)
    ensures
        a != b ==> a.spec_mask() & b.spec_mask() == 0,
        a.spec_mask() != 0,
{
    lemma_single_bit_mask_nonzero(a.spec_bit());
    if a != b {
        lemma_single_bit_masks_disjoint(a.spec_bit(), b.spec_bit());
    }
}

/// No two flags of the protection-alert register share a bit position,
/// and every flag occupies a bit.
pub proof fn lemma_prot_alert_codes_disjoint(a: ProtAlertCode, b: ProtAlertCode)
    ensures
        a != b ==> a.spec_mask() & b.spec_mask() == 0,
        a.spec_mask() != 0,
{
    lemma_single_bit_mask_nonzero(a.spec_bit());
    if a != b {
        lemma_single_bit_masks_disjoint(a.spec_bit(), b.spec_bit());
    }
}

/// No two flags of the communication-status register share a bit position,
/// and every flag occupies a bit.
pub proof fn lemma_comm_stat_codes_disjoint(a: CommStatCode, b: CommStatCode)
    ensures
        a != b ==> a.spec_mask() & b.spec_mask() == 0,
        a.spec_mask() != 0,
{
    lemma_single_bit_mask_nonzero(a.spec_bit());
    if a != b {
        lemma_single_bit_masks_disjoint(a.spec_bit(), b.spec_bit());
    }
}

} // verus!
