//! The pack-configuration register's enumerated fields and the packing of
//! a validated configuration into one 16-bit code.
//!
//! Each field owns a fixed range of bits, and the ranges of distinct
//! fields never overlap, so a configuration is the bitwise OR of its
//! encoded fields and every field can be read back out of the code.

use vstd::prelude::*;

verus! {

/// The type of thermistor attached to the temperature channels.
#[derive(Clone, Copy, Debug, PartialEq)]
pub enum ThermistorType {
    /// A 10 kOhm NTC thermistor.
    Ntc10KOhm,
    /// A 100 kOhm NTC thermistor.
    Ntc100KOhm,
}

impl ThermistorType {
    /// The field's contribution to the pack-configuration code: bit 11.
    pub open spec fn spec_code(self) -> u16 {
        match self {
            ThermistorType::Ntc10KOhm => 0x0000,
            ThermistorType::Ntc100KOhm => 0x0800,
        }
    }

    /// The field's contribution to the pack-configuration code: bit 11.
    pub fn code(self) -> (r: u16)
        ensures
            r == self.spec_code(),
    {
        match self {
            ThermistorType::Ntc10KOhm => 0x0000,
            ThermistorType::Ntc100KOhm => 0x0800,
        }
    }
}

/// The charge-pump voltage, set according to the desired gate drive;
/// higher drive trades against quiescent current.
#[derive(Clone, Copy, Debug, PartialEq)]
pub enum ChargePumpVoltageConfiguration {
    /// The 6 V setting.
    Cp6V,
    /// The 8 V setting.
    Cp8V,
    /// The 10 V setting.
    Cp10V,
}

impl ChargePumpVoltageConfiguration {
    /// The field's contribution to the pack-configuration code:
    /// bits 8 and 9.
    pub open spec fn spec_code(self) -> u16 {
        match self {
            ChargePumpVoltageConfiguration::Cp6V => 0x0000,
            ChargePumpVoltageConfiguration::Cp8V => 0x0100,
            ChargePumpVoltageConfiguration::Cp10V => 0x0200,
        }
    }

    /// The field's contribution to the pack-configuration code:
    /// bits 8 and 9.
    pub fn code(self) -> (r: u16)
        ensures
            r == self.spec_code(),
    {
        match self {
            ChargePumpVoltageConfiguration::Cp6V => 0x0000,
            ChargePumpVoltageConfiguration::Cp8V => 0x0100,
            ChargePumpVoltageConfiguration::Cp10V => 0x0200,
        }
    }
}

/// The always-on regulator's mode.
#[derive(Clone, Copy, Debug, PartialEq)]
pub enum AlwaysOnRegulatorConfiguration {
    /// The regulator is disabled.
    Disabled,
    /// The regulator is enabled with a 3.4 V output.
    Enabled3p4V,
    /// The regulator is enabled with a 1.8 V output.
    Enabled1p8V,
}

impl AlwaysOnRegulatorConfiguration {
    /// The field's contribution to the pack-configuration code:
    /// bits 14 and 15.
    pub open spec fn spec_code(self) -> u16 {
        match self {
            AlwaysOnRegulatorConfiguration::Disabled => 0x0000,
            AlwaysOnRegulatorConfiguration::Enabled3p4V => 0x4000,
            AlwaysOnRegulatorConfiguration::Enabled1p8V => 0x8000,
        }
    }

    /// The field's contribution to the pack-configuration code:
    /// bits 14 and 15.
    pub fn code(self) -> (r: u16)
        ensures
            r == self.spec_code(),
    {
        match self {
            AlwaysOnRegulatorConfiguration::Disabled => 0x0000,
            AlwaysOnRegulatorConfiguration::Enabled3p4V => 0x4000,
            AlwaysOnRegulatorConfiguration::Enabled1p8V => 0x8000,
        }
    }
}

/// When the pack and pack-pin voltage channels update.
#[derive(Clone, Copy, Debug, PartialEq)]
pub enum BatteryPackUpdate {
    /// The channels update every 22.4 s.
    UpdateEvery22p4s,
    /// The channels update after all cell measurements complete.
    AfterMeasurementsCompleted,
}

impl BatteryPackUpdate {
    /// The field's contribution to the pack-configuration code: bit 13.
    pub open spec fn spec_code(self) -> u16 {
        match self {
            BatteryPackUpdate::UpdateEvery22p4s => 0x0000,
            BatteryPackUpdate::AfterMeasurementsCompleted => 0x2000,
        }
    }

    /// The field's contribution to the pack-configuration code: bit 13.
    pub fn code(self) -> (r: u16)
        ensures
            r == self.spec_code(),
    {
        match self {
            BatteryPackUpdate::UpdateEvery22p4s => 0x0000,
            BatteryPackUpdate::AfterMeasurementsCompleted => 0x2000,
        }
    }
}

/// Whether a cell count is one the device supports: 2 to 4 cells.
pub open spec fn spec_valid_n_cells(n_cells: u8) -> bool {
    2 <= n_cells <= 4
}

/// Whether a thermistor-channel count is one the device supports:
/// 0 to 4 channels, the die thermistor not counted.
pub open spec fn spec_valid_n_therms(n_therms: u8) -> bool {
    n_therms <= 4
}

/// The pack-configuration code for validated inputs: the cell count less
/// two in bits 0 and 1, the thermistor count in bits 2 to 4, and the
/// enumerated fields OR-ed into their own disjoint bit ranges.
pub open spec fn spec_pack_config_code(
    n_cells: u8,
    n_therms: u8,
    therm_type: ThermistorType,
    charge_pump_voltage_config: ChargePumpVoltageConfiguration,
    always_on_regulator_config: AlwaysOnRegulatorConfiguration,
    battery_pack_update: BatteryPackUpdate,
) -> u16
    recommends
        spec_valid_n_cells(n_cells),
        spec_valid_n_therms(n_therms),
{
    ((n_cells - 2) as u16) | ((n_therms as u16) << 2u16) | therm_type.spec_code()
        | charge_pump_voltage_config.spec_code() | always_on_regulator_config.spec_code()
        | battery_pack_update.spec_code()
}

/// Pack a validated configuration into its 16-bit code.
///
/// Beyond giving the code, the contract recovers the cell count and the
/// thermistor count back out of it, which shows that the OR-ed fields
/// stayed inside their own bit ranges.
pub fn pack_config_code(
    n_cells: u8,
    n_therms: u8,
    therm_type: ThermistorType,
    charge_pump_voltage_config: ChargePumpVoltageConfiguration,
    always_on_regulator_config: AlwaysOnRegulatorConfiguration,
    battery_pack_update: BatteryPackUpdate,
) -> (r: u16)
    requires
        spec_valid_n_cells(n_cells),
        spec_valid_n_therms(n_therms),
    ensures
        r == spec_pack_config_code(
            n_cells,
            n_therms,
            therm_type,
            charge_pump_voltage_config,
            always_on_regulator_config,
            battery_pack_update,
        ),
        r & 0x0003 == n_cells - 2,
        (r >> 2u16) & 0x0007 == n_therms,
{
    let code = ((n_cells - 2) as u16) | ((n_therms as u16) << 2u16) | therm_type.code()
        | charge_pump_voltage_config.code() | always_on_regulator_config.code()
        | battery_pack_update.code();
    proof {
        lemma_pack_config_fields_recoverable(
            n_cells,
            n_therms,
            therm_type,
            charge_pump_voltage_config,
            always_on_regulator_config,
            battery_pack_update,
        );
    }
    code
}

/// Every field of a valid pack-configuration code can be read back out of
/// it with that field's own mask: the bit ranges of distinct fields are
/// pairwise disjoint, so OR-ing the fields together loses nothing.
pub proof fn lemma_pack_config_fields_recoverable(
    n_cells: u8,
    n_therms: u8,
    therm_type: ThermistorType,
    charge_pump_voltage_config: ChargePumpVoltageConfiguration,
    always_on_regulator_config: AlwaysOnRegulatorConfiguration,
    battery_pack_update: BatteryPackUpdate,
)
    requires
        spec_valid_n_cells(n_cells),
        spec_valid_n_therms(n_therms),
    ensures
        ({
            let code = spec_pack_config_code(
                n_cells,
                n_therms,
                therm_type,
                charge_pump_voltage_config,
                always_on_regulator_config,
                battery_pack_update,
            );
            &&& code & 0x0003 == n_cells - 2
            &&& (code >> 2u16) & 0x0007 == n_therms
            &&& code & 0x0800 == therm_type.spec_code()
            &&& code & 0x0300 == charge_pump_voltage_config.spec_code()
            &&& code & 0xC000 == always_on_regulator_config.spec_code()
            &&& code & 0x2000 == battery_pack_update.spec_code()
        }),
{
    let cells = (n_cells - 2) as u16;
    let therms = n_therms as u16;
    let t = therm_type.spec_code();
    let c = charge_pump_voltage_config.spec_code();
    let a = always_on_regulator_config.spec_code();
    let u = battery_pack_update.spec_code();
    let code = cells | (therms << 2u16) | t | c | a | u;
    assert(code & 0x0003 == cells && (code >> 2u16) & 0x0007 == therms && code & 0x0800 == t && code
        & 0x0300 == c && code & 0xC000 == a && code & 0x2000 == u) by (bit_vector)
        requires
            code == cells | (therms << 2u16) | t | c | a | u,
            cells < 3,
            therms < 5,
            t == 0x0000 || t == 0x0800,
            c == 0x0000 || c == 0x0100 || c == 0x0200,
            a == 0x0000 || a == 0x4000 || a == 0x8000,
            u == 0x0000 || u == 0x2000,
    ;
}

} // verus!
