//! The driver against fake buses: a RAM-backed register file for the
//! ordinary paths, and doubles that simulate a stuck busy flag, a
//! reported nonvolatile error, and a failing bus.

use std::cell::RefCell;
use std::collections::HashMap;
use std::rc::Rc;

use max17320::AlwaysOnRegulatorConfiguration;
use max17320::BatteryPackUpdate;
use max17320::ChargePumpVoltageConfiguration;
use max17320::Error;
use max17320::MAX17320;
use max17320::RegisterNvm;
use max17320::ThermistorType;
use max17320::Transport;

const PRIMARY: u8 = 0x36;
const NVM: u8 = 0x0B;
const COMM_STAT: u8 = 0x61;

/// One transaction a fake bus saw.
#[derive(Clone, Debug, PartialEq)]
enum Recorded {
    Write { addr: u8, data: Vec<u8> },
    WriteRead { addr: u8, data: Vec<u8>, len: usize },
}

/// How the fake bus behaves.
#[derive(Clone, Copy, PartialEq)]
enum Mode {
    /// A RAM-backed register file; the communication-status register
    /// reads as written (so never busy unless written so).
    Ram,
    /// The communication-status register always reports busy.
    AlwaysBusy,
    /// The busy flag reads clear at once, and the next
    /// communication-status read reports the nonvolatile error flag.
    ErrorAfterClear,
    /// Every transaction fails.
    FailAll,
}

struct State {
    mode: Mode,
    regs: HashMap<(u8, u8), u16>,
    log: Vec<Recorded>,
    comm_reads: usize,
}

#[derive(Clone)]
struct FakeBus {
    state: Rc<RefCell<State>>,
}

impl FakeBus {
    fn new(mode: Mode) -> FakeBus {
        FakeBus {
            state: Rc::new(RefCell::new(State {
                mode,
                regs: HashMap::new(),
                log: Vec::new(),
                comm_reads: 0,
            })),
        }
    }

    fn log(&self) -> Vec<Recorded> {
        self.state.borrow().log.clone()
    }

    fn reg(&self, addr: u8, reg: u8) -> u16 {
        *self.state.borrow().regs.get(&(addr, reg)).unwrap_or(&0)
    }

    fn set_reg(&self, addr: u8, reg: u8, value: u16) {
        self.state.borrow_mut().regs.insert((addr, reg), value);
    }

    fn comm_stat_reads(&self) -> usize {
        self.state
            .borrow()
            .log
            .iter()
            .filter(|op| matches!(op, Recorded::WriteRead { data, .. } if data == &vec![COMM_STAT]))
            .count()
    }
}

impl Transport for FakeBus {
    type BusFault = ();

    // The ghost history exists only for verification; nothing executes it.
    fn ops(&self) -> max17320::BusLog {
        unreachable!()
    }

    fn write(&mut self, addr: u8, data: &Vec<u8>) -> Result<(), ()> {
        let mut st = self.state.borrow_mut();
        st.log.push(Recorded::Write { addr, data: data.clone() });
        if st.mode == Mode::FailAll {
            return Err(());
        }
        if data.len() == 3 {
            let value = u16::from_be_bytes([data[1], data[2]]);
            st.regs.insert((addr, data[0]), value);
        }
        Ok(())
    }

    fn read(&mut self, addr: u8, len: usize) -> Result<Vec<u8>, ()> {
        let mut st = self.state.borrow_mut();
        st.log.push(Recorded::WriteRead { addr, data: Vec::new(), len });
        if st.mode == Mode::FailAll {
            return Err(());
        }
        Ok(vec![0; len])
    }

    fn write_read(&mut self, addr: u8, data: &Vec<u8>, len: usize) -> Result<Vec<u8>, ()> {
        let mut st = self.state.borrow_mut();
        st.log.push(Recorded::WriteRead { addr, data: data.clone(), len });
        if st.mode == Mode::FailAll {
            return Err(());
        }
        let reg = data[0];
        let value = if reg == COMM_STAT && addr == PRIMARY {
            st.comm_reads += 1;
            match st.mode {
                Mode::AlwaysBusy => 0x0002,
                Mode::ErrorAfterClear => {
                    if st.comm_reads == 1 {
                        0x0000
                    } else {
                        0x0004
                    }
                },
                _ => *st.regs.get(&(addr, reg)).unwrap_or(&0),
            }
        } else {
            *st.regs.get(&(addr, reg)).unwrap_or(&0)
        };
        let bytes = value.to_le_bytes();
        assert_eq!(len, 2);
        Ok(vec![bytes[0], bytes[1]])
    }
}

fn ram_device() -> (MAX17320<FakeBus>, FakeBus) {
    let bus = FakeBus::new(Mode::Ram);
    let handle = bus.clone();
    (MAX17320::new(bus, 5).unwrap(), handle)
}

#[test]
fn unlock_issues_exactly_two_zero_writes() {
    let (mut dev, bus) = ram_device();
    dev.unlock_write_protection().unwrap();
    let expected = Recorded::Write { addr: PRIMARY, data: vec![COMM_STAT, 0x00, 0x00] };
    assert_eq!(bus.log(), vec![expected.clone(), expected]);
}

#[test]
fn lock_issues_exactly_two_sentinel_writes() {
    let (mut dev, bus) = ram_device();
    dev.lock_write_protection().unwrap();
    let expected = Recorded::Write { addr: PRIMARY, data: vec![COMM_STAT, 0x00, 0xF9] };
    assert_eq!(bus.log(), vec![expected.clone(), expected]);
}

#[test]
fn nonvolatile_write_times_out_after_exactly_500_polls() {
    let bus = FakeBus::new(Mode::AlwaysBusy);
    let handle = bus.clone();
    let mut dev = MAX17320::new(bus, 5).unwrap();
    let r = dev.write_nonvolatile(RegisterNvm::NPackCfg, 0x1234);
    assert_eq!(r, Err(Error::Timeout));
    assert_eq!(handle.comm_stat_reads(), 500);
}

#[test]
fn nonvolatile_write_reports_device_error_with_register() {
    let bus = FakeBus::new(Mode::ErrorAfterClear);
    let mut dev = MAX17320::new(bus, 5).unwrap();
    let r = dev.write_nonvolatile(RegisterNvm::NPackCfg, 0x1234);
    assert_eq!(r, Err(Error::NonvolatileError(RegisterNvm::NPackCfg)));
}

#[test]
fn nonvolatile_write_stores_value_and_succeeds_when_idle() {
    let (mut dev, bus) = ram_device();
    dev.write_nonvolatile(RegisterNvm::NConfig, 0xBEEF).unwrap();
    assert_eq!(bus.reg(NVM, 0xB0), 0xBEEF);
    // One poll that found the busy flag clear, and one confirming read.
    assert_eq!(bus.comm_stat_reads(), 2);
}

#[test]
fn bus_failure_is_wrapped() {
    let bus = FakeBus::new(Mode::FailAll);
    let mut dev = MAX17320::new(bus, 5).unwrap();
    assert_eq!(dev.read_status(), Err(Error::BusError(())));
}

#[test]
fn reads_decode_little_endian() {
    let (mut dev, bus) = ram_device();
    // The register file stores 0x1234 and hands it out low byte first;
    // the driver must put the bytes back together as 0x1234.
    bus.set_reg(PRIMARY, 0x21, 0x1234);
    assert_eq!(dev.read_device_name().unwrap(), 0x1234);
}

#[test]
fn writes_encode_big_endian() {
    let (mut dev, bus) = ram_device();
    dev.set_state_of_charge_alert_threshold(0x21, 0x43).unwrap();
    // One 3-byte write: register address, then high byte, then low byte.
    let expected = Recorded::Write { addr: PRIMARY, data: vec![0x03, 0x43, 0x21] };
    assert_eq!(bus.log(), vec![expected]);
}

#[test]
fn pack_config_rejects_out_of_range_cell_counts() {
    let (mut dev, bus) = ram_device();
    let therm = ThermistorType::Ntc10KOhm;
    let cp = ChargePumpVoltageConfiguration::Cp6V;
    let aldo = AlwaysOnRegulatorConfiguration::Disabled;
    let upd = BatteryPackUpdate::UpdateEvery22p4s;
    let r = dev.set_pack_config(1, 0, therm, cp, aldo, upd);
    assert_eq!(r, Err(Error::InvalidConfigurationValue(1)));
    let r = dev.set_pack_config(5, 0, therm, cp, aldo, upd);
    assert_eq!(r, Err(Error::InvalidConfigurationValue(5)));
    let r = dev.set_pack_config(2, 5, therm, cp, aldo, upd);
    assert_eq!(r, Err(Error::InvalidConfigurationValue(5)));
    // Rejection happens before anything touches the bus.
    assert_eq!(bus.log(), Vec::new());
}

#[test]
fn pack_config_encodes_accepted_cell_counts() {
    for n_cells in 2..=4u8 {
        let (mut dev, bus) = ram_device();
        dev.set_pack_config(
            n_cells,
            0,
            ThermistorType::Ntc10KOhm,
            ChargePumpVoltageConfiguration::Cp6V,
            AlwaysOnRegulatorConfiguration::Disabled,
            BatteryPackUpdate::UpdateEvery22p4s,
        )
        .unwrap();
        let stored = bus.reg(NVM, 0xB5);
        assert_eq!(stored & 0x0003, (n_cells - 2) as u16);
        assert_eq!(stored, (n_cells - 2) as u16);
    }
}

#[test]
fn pack_config_packs_all_fields() {
    let (mut dev, bus) = ram_device();
    dev.set_pack_config(
        4,
        3,
        ThermistorType::Ntc100KOhm,
        ChargePumpVoltageConfiguration::Cp10V,
        AlwaysOnRegulatorConfiguration::Enabled3p4V,
        BatteryPackUpdate::AfterMeasurementsCompleted,
    )
    .unwrap();
    let stored = bus.reg(NVM, 0xB5);
    assert_eq!(stored, 0x0002 | (3 << 2) | 0x0800 | 0x0200 | 0x4000 | 0x2000);
    // The commit is framed by the unlock and lock double writes.
    let log = bus.log();
    let unlock = Recorded::Write { addr: PRIMARY, data: vec![COMM_STAT, 0x00, 0x00] };
    let lock = Recorded::Write { addr: PRIMARY, data: vec![COMM_STAT, 0x00, 0xF9] };
    assert_eq!(&log[0..2], &[unlock.clone(), unlock]);
    assert_eq!(&log[log.len() - 2..], &[lock.clone(), lock]);
}

#[test]
fn voltage_threshold_round_trip_within_quantization() {
    let (mut dev, _bus) = ram_device();
    dev.set_voltage_alert_threshold(1000, 4000).unwrap();
    let (min_mv, max_mv) = dev.read_volatage_alert_threshold().unwrap();
    assert!((min_mv - 1000).abs() <= 20);
    assert!((max_mv - 4000).abs() <= 20);
    // On the 20 mV grid the round trip is in fact exact.
    assert_eq!((min_mv, max_mv), (1000, 4000));
}

#[test]
fn voltage_threshold_rejects_invalid_bounds() {
    let (mut dev, bus) = ram_device();
    let r = dev.set_voltage_alert_threshold(0, 5120);
    assert_eq!(r, Err(Error::InvalidConfigurationValue(5120)));
    let r = dev.set_voltage_alert_threshold(-20, 5100);
    assert_eq!(r, Err(Error::InvalidConfigurationValue(0)));
    let r = dev.set_voltage_alert_threshold(10, 5100);
    assert_eq!(r, Err(Error::InvalidConfigurationValue(10)));
    assert_eq!(bus.log(), Vec::new());
}

#[test]
fn temperature_threshold_round_trip() {
    let (mut dev, _bus) = ram_device();
    dev.set_temperature_alert_threshold(-40, 60).unwrap();
    assert_eq!(dev.read_temperature_alert_threshold().unwrap(), (-40, 60));
}

#[test]
fn state_of_charge_threshold_round_trip() {
    let (mut dev, _bus) = ram_device();
    dev.set_state_of_charge_alert_threshold(5, 95).unwrap();
    assert_eq!(dev.read_state_of_charge_alert_threshold().unwrap(), (5, 95));
}

#[test]
fn current_threshold_round_trip() {
    let (mut dev, _bus) = ram_device();
    dev.set_current_alert_threshold(-50, 100).unwrap();
    assert_eq!(dev.read_current_alert_threshold().unwrap(), (-50, 100));
}

#[test]
fn device_readings_are_converted() {
    let (mut dev, bus) = ram_device();
    bus.set_reg(PRIMARY, 0x05, 100);  // RepCap
    bus.set_reg(PRIMARY, 0x06, 256);  // RepSOC
    bus.set_reg(PRIMARY, 0x1A, 12800);  // VCell
    bus.set_reg(PRIMARY, 0x1B, 0x8000);  // Temp
    bus.set_reg(PRIMARY, 0x1C, 0xFFFF);  // Current: -1 LSB
    bus.set_reg(PRIMARY, 0x11, 2);  // TimeToEmpty
    assert_eq!(dev.read_capacity().unwrap(), 100_000);
    assert_eq!(dev.read_state_of_charge().unwrap(), 100_000_000);
    assert_eq!(dev.read_vcell().unwrap(), 1_000_000_000);
    assert_eq!(dev.read_temperature().unwrap(), -12_800_000_000);
    assert_eq!(dev.read_current().unwrap(), -312_500);
    assert_eq!(dev.read_time_to_empty().unwrap(), 11_250);
}

#[test]
fn clear_protection_alert_writes_zero() {
    let (mut dev, bus) = ram_device();
    bus.set_reg(PRIMARY, 0xAF, 0xFFFF);
    dev.clear_protection_alert().unwrap();
    assert_eq!(bus.reg(PRIMARY, 0xAF), 0x0000);
}

#[test]
fn alert_output_enable_sets_bit_and_clears_shutdown() {
    let (mut dev, bus) = ram_device();
    bus.set_reg(PRIMARY, 0x0B, 0x0000);  // Config
    bus.set_reg(NVM, 0xB0, 0xFFFF);  // NConfig: shutdown bit set
    dev.set_alert_output_enable(true).unwrap();
    assert_eq!(bus.reg(PRIMARY, 0x0B) & 0x0004, 0x0004);
    assert_eq!(bus.reg(NVM, 0xB0) & 0x0020, 0x0000);
}

#[test]
fn alert_output_disable_clears_bit_and_leaves_shutdown() {
    let (mut dev, bus) = ram_device();
    bus.set_reg(PRIMARY, 0x0B, 0xFFFF);
    bus.set_reg(NVM, 0xB0, 0x0020);
    dev.set_alert_output_enable(false).unwrap();
    assert_eq!(bus.reg(PRIMARY, 0x0B) & 0x0004, 0x0000);
    assert_eq!(bus.reg(NVM, 0xB0) & 0x0020, 0x0020);
}

#[test]
fn nonvolatile_reads_use_shadow_address() {
    let (mut dev, bus) = ram_device();
    bus.set_reg(NVM, 0xA8, 0xABCD);
    bus.set_reg(NVM, 0xB5, 0x00F3);
    assert_eq!(dev.read_battery_status().unwrap(), 0xABCD);
    assert_eq!(dev.read_pack_config().unwrap(), 0x00F3);
}

#[test]
fn status_flags_are_tested_by_mask() {
    let (mut dev, bus) = ram_device();
    bus.set_reg(PRIMARY, 0x00, 0x0002);
    let status = dev.read_status().unwrap();
    assert!(max17320::has_code(max17320::StatusCode::PowerOnReset.mask(), status));
    assert!(!max17320::has_code(max17320::StatusCode::ProtectionAlert.mask(), status));
}
