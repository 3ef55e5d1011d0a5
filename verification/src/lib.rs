//! Register-level driver for the MAX17320 multi-cell fuel gauge and
//! protector, reached over a two-wire bus supplied by the caller.
//!
//! The driver translates named device operations into register addresses
//! and byte encodings, and translates raw 16-bit register contents into
//! engineering units. All quantities are exact scaled integers; the unit
//! of each value is stated where it is produced.

pub mod config;
pub mod conversion;
pub mod error;
pub mod register;
pub mod transport;

pub use config::AlwaysOnRegulatorConfiguration;
pub use config::BatteryPackUpdate;
pub use config::ChargePumpVoltageConfiguration;
pub use config::ThermistorType;
pub use conversion::as_signed;
pub use conversion::convert_to_capacity;
pub use conversion::convert_to_current;
pub use conversion::convert_to_percentage;
pub use conversion::convert_to_temperature;
pub use conversion::convert_to_time;
pub use conversion::convert_to_voltage;
pub use conversion::encode_temperature;
pub use conversion::is_valid_voltage_threshold;
pub use error::Error;
pub use register::CommStatCode;
pub use register::ProtAlertCode;
pub use register::ProtStatusCode;
pub use register::Register;
pub use register::RegisterNvm;
pub use register::StatusCode;
pub use register::clear_bit;
pub use register::has_code;
pub use register::set_bit;
pub use transport::BusLog;
pub use transport::BusOp;
pub use transport::Transport;

use transport::reg_read_ok_op;
use transport::reg_read_op;
use transport::reg_write_op;
use transport::spec_high_byte;
use transport::spec_low_byte;
use vstd::prelude::*;

verus! {

/// The default primary bus address of the device.
pub const DEFAULT_ADDRESS: u8 = 0x36;

/// The default bus address of the nonvolatile-shadow space.
pub const DEFAULT_ADDRESS_NVM: u8 = 0x0B;

/// The sentinel written twice to the communication-status register to
/// disable write protection.
pub const UNLOCK_CODE: u16 = 0x0000;

/// The sentinel written twice to the communication-status register to
/// enable write protection.
pub const LOCK_CODE: u16 = 0x00F9;

/// How many times a nonvolatile write polls the communication-status
/// register for the busy flag to clear before giving up.
pub const NVM_POLL_LIMIT: u16 = 500;

/// Whether a communication-status value reports nonvolatile memory busy.
pub open spec fn nv_busy(v: u16) -> bool {
    (CommStatCode::NonvolatileBusy.spec_mask() & v) > 0
}

/// Whether a communication-status value reports a failed nonvolatile
/// operation.
pub open spec fn nv_error(v: u16) -> bool {
    (CommStatCode::NonvolatileError.spec_mask() & v) > 0
}

/// Whether every value of a sequence of communication-status readings
/// reports nonvolatile memory busy.
pub open spec fn all_busy(vs: Seq<u16>) -> bool {
    forall|i: int| 0 <= i < vs.len() ==> nv_busy(#[trigger] vs[i])
}

/// The transactions of a run of busy polls: one successful read of the
/// communication-status register for each reading.
pub open spec fn poll_trace(addr: u8, vs: Seq<u16>) -> Seq<BusOp> {
    vs.map_values(|v: u16| reg_read_ok_op(addr, Register::CommStat.spec_addr(), v))
}

/// The two transactions of a successful protection unlock or lock: the
/// same sentinel written twice to the communication-status register.
pub open spec fn double_write_ops(addr: u8, code: u16) -> Seq<BusOp> {
    seq![
        reg_write_op(addr, Register::CommStat.spec_addr(), code, true),
        reg_write_op(addr, Register::CommStat.spec_addr(), code, true),
    ]
}

/// How a protection unlock or lock extends the bus history for each
/// possible result: both writes happen on success; on a bus failure the
/// failing write is the last transaction and nothing follows it.
pub open spec fn double_write_outcome<E>(
    pre: Seq<BusOp>,
    post: Seq<BusOp>,
    addr: u8,
    code: u16,
    r: Result<(), Error<E>>,
) -> bool {
    let cs = Register::CommStat.spec_addr();
    match r {
        Ok(()) => post == pre + double_write_ops(addr, code),
        Err(Error::BusError(_)) => post == pre.push(reg_write_op(addr, cs, code, false)) || post
            == pre + seq![reg_write_op(addr, cs, code, true), reg_write_op(addr, cs, code, false)],
        Err(_) => false,
    }
}

/// How a nonvolatile write with its completion handshake extends the bus
/// history for each possible result.
///
/// The write itself goes to the nonvolatile-shadow address space; the
/// busy polls and the confirming read go to the communication-status
/// register on the primary space. On success there were between 1 and
/// `NVM_POLL_LIMIT` polls, all but the last still busy, and the confirming
/// read showed no error flag. A timeout means exactly `NVM_POLL_LIMIT`
/// polls, every one still busy. A reported nonvolatile error names the
/// register that was written, and differs from success only in the error
/// flag of the confirming read. A bus failure ends the history at the
/// failing transaction.
pub open spec fn nvm_write_outcome<E>(
    pre: Seq<BusOp>,
    post: Seq<BusOp>,
    addr: u8,
    addr_nvm: u8,
    reg: RegisterNvm,
    value: u16,
    r: Result<(), Error<E>>,
) -> bool {
    let cs = Register::CommStat.spec_addr();
    let wrote = pre.push(reg_write_op(addr_nvm, reg.spec_addr(), value, true));
    match r {
        Ok(()) => exists|vs: Seq<u16>, confirm: u16|
            #![auto]
            {
                &&& 1 <= vs.len() <= NVM_POLL_LIMIT
                &&& all_busy(vs.drop_last())
                &&& !nv_busy(vs.last())
                &&& !nv_error(confirm)
                &&& post == wrote + poll_trace(addr, vs) + seq![reg_read_ok_op(addr, cs, confirm)]
            },
        Err(Error::Timeout) => exists|vs: Seq<u16>|
            #![auto]
            {
                &&& vs.len() == NVM_POLL_LIMIT
                &&& all_busy(vs)
                &&& post == wrote + poll_trace(addr, vs)
            },
        Err(Error::NonvolatileError(bad)) => bad == reg && exists|vs: Seq<u16>, confirm: u16|
            #![auto]
            {
                &&& 1 <= vs.len() <= NVM_POLL_LIMIT
                &&& all_busy(vs.drop_last())
                &&& !nv_busy(vs.last())
                &&& nv_error(confirm)
                &&& post == wrote + poll_trace(addr, vs) + seq![reg_read_ok_op(addr, cs, confirm)]
            },
        Err(Error::BusError(_)) => {
            ||| post == pre.push(reg_write_op(addr_nvm, reg.spec_addr(), value, false))
            ||| exists|vs: Seq<u16>|
                #![auto]
                {
                    &&& vs.len() < NVM_POLL_LIMIT
                    &&& all_busy(vs)
                    &&& post == wrote + poll_trace(addr, vs) + seq![reg_read_op(addr, cs, None)]
                }
            ||| exists|vs: Seq<u16>|
                #![auto]
                {
                    &&& 1 <= vs.len() <= NVM_POLL_LIMIT
                    &&& all_busy(vs.drop_last())
                    &&& !nv_busy(vs.last())
                    &&& post == wrote + poll_trace(addr, vs) + seq![reg_read_op(addr, cs, None)]
                }
        },
        Err(_) => false,
    }
}

/// The bus history after a nonvolatile write whose handshake succeeded:
/// the raw write, a run of polls whose last reading was no longer busy,
/// and a confirming read without the error flag.
pub open spec fn nvm_write_committed(
    pre: Seq<BusOp>,
    post: Seq<BusOp>,
    addr: u8,
    addr_nvm: u8,
    reg: RegisterNvm,
    value: u16,
) -> bool {
    let cs = Register::CommStat.spec_addr();
    let wrote = pre.push(reg_write_op(addr_nvm, reg.spec_addr(), value, true));
    exists|vs: Seq<u16>, confirm: u16|
        #![auto]
        {
            &&& 1 <= vs.len() <= NVM_POLL_LIMIT
            &&& all_busy(vs.drop_last())
            &&& !nv_busy(vs.last())
            &&& !nv_error(confirm)
            &&& post == wrote + poll_trace(addr, vs) + seq![reg_read_ok_op(addr, cs, confirm)]
        }
}

/// How a nonvolatile write framed by a protection unlock and lock extends
/// the bus history: the unlock's double write, then the handshake of
/// [`nvm_write_outcome`], then the lock's double write. A failing stage
/// ends the history there and its error is the result; in particular a
/// failure of the write itself leaves the device unlocked.
pub open spec fn locked_nvm_commit<E>(
    pre: Seq<BusOp>,
    post: Seq<BusOp>,
    addr: u8,
    addr_nvm: u8,
    reg: RegisterNvm,
    value: u16,
    r: Result<(), Error<E>>,
) -> bool {
    let unlocked = pre + double_write_ops(addr, UNLOCK_CODE);
    {
        ||| (!(r is Ok) && double_write_outcome(pre, post, addr, UNLOCK_CODE, r))
        ||| (!(r is Ok) && nvm_write_outcome(unlocked, post, addr, addr_nvm, reg, value, r))
        ||| exists|mid: Seq<BusOp>|
            #![auto]
            {
                &&& nvm_write_committed(unlocked, mid, addr, addr_nvm, reg, value)
                &&& double_write_outcome(mid, post, addr, LOCK_CODE, r)
            }
    }
}

/// The nonvolatile configuration value after switching the
/// alert-shutdown flag (bit 5): set when enabling, cleared otherwise.
pub open spec fn spec_shutdown_update(cur: u16, enable: bool) -> u16 {
    if enable {
        cur | (1u16 << 5u8)
    } else {
        cur & !(1u16 << 5u8)
    }
}

/// The bus history after switching the alert-shutdown flag successfully:
/// the nonvolatile configuration register read, then written back with
/// bit 5 switched.
pub open spec fn alert_shutdown_committed(
    pre: Seq<BusOp>,
    post: Seq<BusOp>,
    addr_nvm: u8,
    enable: bool,
) -> bool {
    let nc = RegisterNvm::NConfig.spec_addr();
    exists|cur: u16|
        #![auto]
        post == pre.push(reg_read_ok_op(addr_nvm, nc, cur)).push(
            reg_write_op(addr_nvm, nc, spec_shutdown_update(cur, enable), true),
        )
}

/// How switching the alert-shutdown flag extends the bus history for
/// each possible result: a read-modify-write of the nonvolatile
/// configuration register, ending at the failing transaction on a bus
/// failure.
pub open spec fn alert_shutdown_outcome<E>(
    pre: Seq<BusOp>,
    post: Seq<BusOp>,
    addr_nvm: u8,
    enable: bool,
    r: Result<(), Error<E>>,
) -> bool {
    let nc = RegisterNvm::NConfig.spec_addr();
    match r {
        Ok(()) => alert_shutdown_committed(pre, post, addr_nvm, enable),
        Err(Error::BusError(_)) => post == pre.push(reg_read_op(addr_nvm, nc, None)) || exists|
            cur: u16,
        |
            #![auto]
            post == pre.push(reg_read_ok_op(addr_nvm, nc, cur)).push(
                reg_write_op(addr_nvm, nc, spec_shutdown_update(cur, enable), false),
            ),
        Err(_) => false,
    }
}

/// The configuration value after switching the alert-output flag
/// (bit 2): set when enabling, cleared otherwise.
pub open spec fn spec_alert_output_update(cur: u16, enable: bool) -> u16 {
    if enable {
        cur | (1u16 << 2u8)
    } else {
        cur & !(1u16 << 2u8)
    }
}

/// How switching the alert-output flag extends the bus history for each
/// possible result: the configuration register is read; when enabling,
/// alert shutdown is switched off first, as the device manual demands;
/// then the configuration is written back with bit 2 switched. A failing
/// stage ends the history there.
pub open spec fn alert_output_outcome<E>(
    pre: Seq<BusOp>,
    post: Seq<BusOp>,
    addr: u8,
    addr_nvm: u8,
    enable: bool,
    r: Result<(), Error<E>>,
) -> bool {
    let cfg = Register::Config.spec_addr();
    if enable {
        match r {
            Ok(()) => exists|cur: u16, mid: Seq<BusOp>|
                #![auto]
                {
                    &&& alert_shutdown_committed(
                        pre.push(reg_read_ok_op(addr, cfg, cur)),
                        mid,
                        addr_nvm,
                        false,
                    )
                    &&& post == mid.push(
                        reg_write_op(addr, cfg, spec_alert_output_update(cur, true), true),
                    )
                },
            Err(Error::BusError(_)) => {
                ||| post == pre.push(reg_read_op(addr, cfg, None))
                ||| exists|cur: u16|
                    #![auto]
                    alert_shutdown_outcome(
                        pre.push(reg_read_ok_op(addr, cfg, cur)),
                        post,
                        addr_nvm,
                        false,
                        r,
                    )
                ||| exists|cur: u16, mid: Seq<BusOp>|
                    #![auto]
                    {
                        &&& alert_shutdown_committed(
                            pre.push(reg_read_ok_op(addr, cfg, cur)),
                            mid,
                            addr_nvm,
                            false,
                        )
                        &&& post == mid.push(
                            reg_write_op(addr, cfg, spec_alert_output_update(cur, true), false),
                        )
                    }
            },
            Err(_) => false,
        }
    } else {
        match r {
            Ok(()) => exists|cur: u16|
                #![auto]
                post == pre.push(reg_read_ok_op(addr, cfg, cur)).push(
                    reg_write_op(addr, cfg, spec_alert_output_update(cur, false), true),
                ),
            Err(Error::BusError(_)) => post == pre.push(reg_read_op(addr, cfg, None)) || exists|
                cur: u16,
            |
                #![auto]
                post == pre.push(reg_read_ok_op(addr, cfg, cur)).push(
                    reg_write_op(addr, cfg, spec_alert_output_update(cur, false), false),
                ),
            Err(_) => false,
        }
    }
}

/// The bus history after one successful register read on the primary
/// space that returned the raw value `raw`.
pub open spec fn read_exchange(
    pre: Seq<BusOp>,
    post: Seq<BusOp>,
    addr: u8,
    reg: Register,
    raw: u16,
) -> bool {
    post == pre.push(reg_read_ok_op(addr, reg.spec_addr(), raw))
}

/// The bus history after one register read on the primary space that
/// failed on the bus.
pub open spec fn read_failed(pre: Seq<BusOp>, post: Seq<BusOp>, addr: u8, reg: Register) -> bool {
    post == pre.push(reg_read_op(addr, reg.spec_addr(), None))
}

/// How a single register read extends the bus history: one combined
/// write-then-read transaction. On success the returned value is the
/// little-endian decoding of the two bytes that came back; on failure the
/// transaction is recorded without a response and the transport's error
/// is wrapped as a bus error.
pub open spec fn reg_read_outcome<E>(
    pre: Seq<BusOp>,
    post: Seq<BusOp>,
    addr: u8,
    reg: u8,
    r: Result<u16, Error<E>>,
) -> bool {
    match r {
        Ok(v) => post == pre.push(reg_read_ok_op(addr, reg, v)),
        Err(Error::BusError(_)) => post == pre.push(reg_read_op(addr, reg, None)),
        Err(_) => false,
    }
}

/// How a single register write extends the bus history: one 3-byte write
/// transaction, the value split big-endian after the register's address
/// byte. On failure the transport's error is wrapped as a bus error.
pub open spec fn reg_write_outcome<E>(
    pre: Seq<BusOp>,
    post: Seq<BusOp>,
    addr: u8,
    reg: u8,
    value: u16,
    r: Result<(), Error<E>>,
) -> bool {
    match r {
        Ok(()) => post == pre.push(reg_write_op(addr, reg, value, true)),
        Err(Error::BusError(_)) => post == pre.push(reg_write_op(addr, reg, value, false)),
        Err(_) => false,
    }
}

/// A polling run grows one reading at a time: appending a reading appends
/// its transaction.
proof fn lemma_poll_trace_push(addr: u8, vs: Seq<u16>, v: u16)
    ensures
        poll_trace(addr, vs.push(v)) == poll_trace(addr, vs).push(
            reg_read_ok_op(addr, Register::CommStat.spec_addr(), v),
        ),
{
    assert(poll_trace(addr, vs.push(v)) =~= poll_trace(addr, vs).push(
        reg_read_ok_op(addr, Register::CommStat.spec_addr(), v),
    ));
}

/// The driver handle: one instance stands for one physical device. It
/// owns the transport exclusively, knows the two bus addresses, and keeps
/// the sense-resistor calibration fixed at construction.
#[derive(Clone, Copy, Debug)]
pub struct MAX17320<I2C: Transport> {
    com: I2C,
    address: u8,
    address_nvm: u8,
    r_sense: u32,
}

impl<I2C: Transport> MAX17320<I2C> {
    /// The ghost history of every bus transaction the handle has made.
    pub closed spec fn bus(&self) -> Seq<BusOp> {
        self.com.ops().0
    }

    /// The primary bus address of the device.
    pub closed spec fn spec_address(&self) -> u8 {
        self.address
    }

    /// The bus address of the nonvolatile-shadow space.
    pub closed spec fn spec_address_nvm(&self) -> u8 {
        self.address_nvm
    }

    /// The sense-resistor calibration in milliohm.
    pub closed spec fn spec_r_sense(&self) -> u32 {
        self.r_sense
    }

    /// A well-formed handle: the sense resistance is not zero, so the
    /// capacity and current scale factors are defined.
    pub open spec fn wf(&self) -> bool {
        self.spec_r_sense() >= 1
    }

    /// Whether two handle states describe the same device: equal
    /// addresses and calibration. Every operation keeps them; only the
    /// bus history moves.
    pub open spec fn same_device_as(&self, other: &Self) -> bool {
        &&& self.spec_address() == other.spec_address()
        &&& self.spec_address_nvm() == other.spec_address_nvm()
        &&& self.spec_r_sense() == other.spec_r_sense()
    }

    /// Create a driver handle over the default bus addresses. The sense
    /// resistance is in milliohm and must not be zero.
    pub fn new(i2c: I2C, r_sense_mohm: u32) -> (r: Result<Self, Error<I2C::BusFault>>)
        requires
            r_sense_mohm >= 1,
        ensures
            match r {
                Ok(d) => {
                    &&& d.wf()
                    &&& d.bus() == i2c.ops().0
                    &&& d.spec_address() == DEFAULT_ADDRESS
                    &&& d.spec_address_nvm() == DEFAULT_ADDRESS_NVM
                    &&& d.spec_r_sense() == r_sense_mohm
                },
                Err(_) => false,
            },
    {
        MAX17320::with_addresses(i2c, DEFAULT_ADDRESS, DEFAULT_ADDRESS_NVM, r_sense_mohm)
    }

    /// Create a driver handle with explicit bus addresses. The sense
    /// resistance is in milliohm and must not be zero.
    pub fn with_addresses(i2c: I2C, address: u8, address_nvm: u8, r_sense_mohm: u32) -> (r: Result<
        Self,
        Error<I2C::BusFault>,
    >)
        requires
            r_sense_mohm >= 1,
        ensures
            match r {
                Ok(d) => {
                    &&& d.wf()
                    &&& d.bus() == i2c.ops().0
                    &&& d.spec_address() == address
                    &&& d.spec_address_nvm() == address_nvm
                    &&& d.spec_r_sense() == r_sense_mohm
                },
                Err(_) => false,
            },
    {
        let chip = Self { com: i2c, address, address_nvm, r_sense: r_sense_mohm };
        Ok(chip)
    }

    /// Read a 16-bit register at `reg` on the bus address `address`: one
    /// combined write-then-read transaction, the two returned bytes
    /// decoded little-endian.
    fn read_register(&mut self, reg: u8, address: u8) -> (r: Result<u16, Error<I2C::BusFault>>)
        ensures
            final(self).same_device_as(old(self)),
            reg_read_outcome(old(self).bus(), final(self).bus(), address, reg, r),
    {
        let mut data: Vec<u8> = Vec::new();
        data.push(reg);
        proof {
            assert(data@ =~= seq![reg]);
        }
        match self.com.write_read(address, &data, 2) {
            Ok(bytes) => {
                let value = bytes[0] as u16 + 256 * (bytes[1] as u16);
                proof {
                    transport::lemma_le16_bytes(bytes@[0], bytes@[1]);
                    assert(bytes@ =~= seq![spec_low_byte(value), spec_high_byte(value)]);
                }
                Ok(value)
            },
            Err(e) => Err(Error::BusError(e)),
        }
    }

    /// Write a 16-bit register at `reg` on the bus address `address`: one
    /// 3-byte write transaction, the value split big-endian (high byte
    /// first) after the register's address byte.
    fn write_register(&mut self, reg: u8, address: u8, code: u16) -> (r: Result<
        (),
        Error<I2C::BusFault>,
    >)
        ensures
            final(self).same_device_as(old(self)),
            reg_write_outcome(old(self).bus(), final(self).bus(), address, reg, code, r),
    {
        let mut data: Vec<u8> = Vec::new();
        data.push(reg);
        data.push((code / 256) as u8);
        data.push((code % 256) as u8);
        proof {
            assert(data@ =~= seq![reg, spec_high_byte(code), spec_low_byte(code)]);
        }
        match self.com.write(address, &data) {
            Ok(()) => Ok(()),
            Err(e) => Err(Error::BusError(e)),
        }
    }

    /// Read a named register of the primary volatile address space.
    pub(crate) fn read_named_register(&mut self, reg: Register) -> (r: Result<
        u16,
        Error<I2C::BusFault>,
    >)
        ensures
            final(self).same_device_as(old(self)),
            reg_read_outcome(
                old(self).bus(),
                final(self).bus(),
                old(self).spec_address(),
                reg.spec_addr(),
                r,
            ),
    {
        let address = self.address;
        self.read_register(reg.addr(), address)
    }

    /// Read a named register of the nonvolatile-shadow address space.
    pub(crate) fn read_named_register_nvm(&mut self, reg: RegisterNvm) -> (r: Result<
        u16,
        Error<I2C::BusFault>,
    >)
        ensures
            final(self).same_device_as(old(self)),
            reg_read_outcome(
                old(self).bus(),
                final(self).bus(),
                old(self).spec_address_nvm(),
                reg.spec_addr(),
                r,
            ),
    {
        let address = self.address_nvm;
        self.read_register(reg.addr(), address)
    }

    /// Write a named register of the primary volatile address space.
    pub(crate) fn write_named_register(&mut self, reg: Register, code: u16) -> (r: Result<
        (),
        Error<I2C::BusFault>,
    >)
        ensures
            final(self).same_device_as(old(self)),
            reg_write_outcome(
                old(self).bus(),
                final(self).bus(),
                old(self).spec_address(),
                reg.spec_addr(),
                code,
                r,
            ),
    {
        let address = self.address;
        self.write_register(reg.addr(), address, code)
    }

    /// Write a named register of the nonvolatile-shadow address space
    /// without the completion handshake.
    pub(crate) fn write_named_register_nvm(&mut self, reg: RegisterNvm, code: u16) -> (r: Result<
        (),
        Error<I2C::BusFault>,
    >)
        ensures
            final(self).same_device_as(old(self)),
            reg_write_outcome(
                old(self).bus(),
                final(self).bus(),
                old(self).spec_address_nvm(),
                reg.spec_addr(),
                code,
                r,
            ),
    {
        let address = self.address_nvm;
        self.write_register(reg.addr(), address, code)
    }

    /// Disable write protection: the unlock sentinel is written twice to
    /// the communication-status register, as the device requires.
    pub fn unlock_write_protection(&mut self) -> (r: Result<(), Error<I2C::BusFault>>)
        ensures
            final(self).same_device_as(old(self)),
            double_write_outcome(
                old(self).bus(),
                final(self).bus(),
                old(self).spec_address(),
                UNLOCK_CODE,
                r,
            ),
    {
        match self.write_named_register(Register::CommStat, UNLOCK_CODE) {
            Ok(()) => {},
            Err(e) => {
                return Err(e);
            },
        }
        let ghost mid = self.bus();
        match self.write_named_register(Register::CommStat, UNLOCK_CODE) {
            Ok(()) => {
                proof {
                    assert(final(self).bus() =~= old(self).bus() + double_write_ops(
                        old(self).spec_address(),
                        UNLOCK_CODE,
                    ));
                }
                Ok(())
            },
            Err(e) => {
                proof {
                    assert(final(self).bus() =~= old(self).bus() + seq![
                        reg_write_op(
                            old(self).spec_address(),
                            Register::CommStat.spec_addr(),
                            UNLOCK_CODE,
                            true,
                        ),
                        reg_write_op(
                            old(self).spec_address(),
                            Register::CommStat.spec_addr(),
                            UNLOCK_CODE,
                            false,
                        ),
                    ]);
                }
                Err(e)
            },
        }
    }

    /// Enable write protection: the lock sentinel is written twice to the
    /// communication-status register, as the device requires.
    pub fn lock_write_protection(&mut self) -> (r: Result<(), Error<I2C::BusFault>>)
        ensures
            final(self).same_device_as(old(self)),
            double_write_outcome(
                old(self).bus(),
                final(self).bus(),
                old(self).spec_address(),
                LOCK_CODE,
                r,
            ),
    {
        match self.write_named_register(Register::CommStat, LOCK_CODE) {
            Ok(()) => {},
            Err(e) => {
                return Err(e);
            },
        }
        match self.write_named_register(Register::CommStat, LOCK_CODE) {
            Ok(()) => {
                proof {
                    assert(final(self).bus() =~= old(self).bus() + double_write_ops(
                        old(self).spec_address(),
                        LOCK_CODE,
                    ));
                }
                Ok(())
            },
            Err(e) => {
                proof {
                    assert(final(self).bus() =~= old(self).bus() + seq![
                        reg_write_op(
                            old(self).spec_address(),
                            Register::CommStat.spec_addr(),
                            LOCK_CODE,
                            true,
                        ),
                        reg_write_op(
                            old(self).spec_address(),
                            Register::CommStat.spec_addr(),
                            LOCK_CODE,
                            false,
                        ),
                    ]);
                }
                Err(e)
            },
        }
    }

    /// Write a register of the nonvolatile-shadow space and wait for the
    /// device to commit it: after the raw write, the communication-status
    /// register is polled up to [`NVM_POLL_LIMIT`] times for the busy flag
    /// to clear, then read once more; a set error flag there reports the
    /// commit as failed on the written register.
    pub fn write_nonvolatile(&mut self, reg: RegisterNvm, value: u16) -> (r: Result<
        (),
        Error<I2C::BusFault>,
    >)
        ensures
            final(self).same_device_as(old(self)),
            nvm_write_outcome(
                old(self).bus(),
                final(self).bus(),
                old(self).spec_address(),
                old(self).spec_address_nvm(),
                reg,
                value,
                r,
            ),
    {
        let address = self.address;
        match self.write_named_register_nvm(reg, value) {
            Ok(()) => {},
            Err(e) => {
                return Err(e);
            },
        }
        let ghost wrote = self.bus();
        let ghost mut vs: Seq<u16> = Seq::empty();
        let mut i: u16 = 0;
        while i < NVM_POLL_LIMIT
            invariant
                i <= NVM_POLL_LIMIT,
                vs.len() == i,
                all_busy(vs),
                self.same_device_as(old(self)),
                address == old(self).spec_address(),
                wrote == old(self).bus().push(
                    reg_write_op(old(self).spec_address_nvm(), reg.spec_addr(), value, true),
                ),
                self.bus() == wrote + poll_trace(address, vs),
            decreases NVM_POLL_LIMIT - i,
        {
            let v = match self.read_named_register(Register::CommStat) {
                Ok(v) => v,
                Err(e) => {
                    proof {
                        assert(final(self).bus() =~= wrote + poll_trace(address, vs) + seq![
                            reg_read_op(address, Register::CommStat.spec_addr(), None),
                        ]);
                    }
                    return Err(e);
                },
            };
            if !has_code(CommStatCode::NonvolatileBusy.mask(), v) {
                // The busy flag cleared: this poll ends the run, and one
                // more read decides between success and a reported error.
                let ghost done = vs.push(v);
                proof {
                    lemma_poll_trace_push(address, vs, v);
                    assert(self.bus() =~= wrote + poll_trace(address, done));
                    assert(done.drop_last() =~= vs);
                }
                let confirm = match self.read_named_register(Register::CommStat) {
                    Ok(c) => c,
                    Err(e) => {
                        proof {
                            assert(final(self).bus() =~= wrote + poll_trace(address, done) + seq![
                                reg_read_op(address, Register::CommStat.spec_addr(), None),
                            ]);
                        }
                        return Err(e);
                    },
                };
                proof {
                    assert(final(self).bus() =~= wrote + poll_trace(address, done) + seq![
                        reg_read_ok_op(address, Register::CommStat.spec_addr(), confirm),
                    ]);
                }
                if has_code(CommStatCode::NonvolatileError.mask(), confirm) {
                    return Err(Error::NonvolatileError(reg));
                }
                return Ok(());
            }
            proof {
                lemma_poll_trace_push(address, vs, v);
                vs = vs.push(v);
            }
            i = i + 1;
        }
        Err(Error::Timeout)
    }

    /// Read the device name register.
    pub fn read_device_name(&mut self) -> (r: Result<u16, Error<I2C::BusFault>>)
        ensures
            final(self).same_device_as(old(self)),
            reg_read_outcome(
                old(self).bus(),
                final(self).bus(),
                old(self).spec_address(),
                Register::DevName.spec_addr(),
                r,
            ),
    {
        let name = match self.read_named_register(Register::DevName) {
            Ok(v) => v,
            Err(e) => {
                return Err(e);
            },
        };
        Ok(name)
    }

    /// Read the alert and chip status flags, raw. Single flags are tested
    /// with [`has_code`] against the masks of [`StatusCode`].
    pub fn read_status(&mut self) -> (r: Result<u16, Error<I2C::BusFault>>)
        ensures
            final(self).same_device_as(old(self)),
            reg_read_outcome(
                old(self).bus(),
                final(self).bus(),
                old(self).spec_address(),
                Register::Status.spec_addr(),
                r,
            ),
    {
        let val = match self.read_named_register(Register::Status) {
            Ok(v) => v,
            Err(e) => {
                return Err(e);
            },
        };
        Ok(val)
    }

    /// Read the reported remaining capacity, in microampere-hours
    /// (see [`conversion::convert_to_capacity`]).
    pub fn read_capacity(&mut self) -> (r: Result<u64, Error<I2C::BusFault>>)
        requires
            old(self).wf(),
        ensures
            final(self).same_device_as(old(self)),
            match r {
                Ok(v) => exists|raw: u16|
                    #![auto]
                    read_exchange(
                        old(self).bus(),
                        final(self).bus(),
                        old(self).spec_address(),
                        Register::RepCap,
                        raw,
                    ) && v == conversion::spec_convert_to_capacity(raw, old(self).spec_r_sense()),
                Err(Error::BusError(_)) => read_failed(
                    old(self).bus(),
                    final(self).bus(),
                    old(self).spec_address(),
                    Register::RepCap,
                ),
                Err(_) => false,
            },
    {
        let r_sense = self.r_sense;
        let raw = match self.read_named_register(Register::RepCap) {
            Ok(v) => v,
            Err(e) => {
                return Err(e);
            },
        };
        Ok(convert_to_capacity(raw, r_sense))
    }

    /// Read the reported state of charge, in 10^-8 percent
    /// (see [`conversion::convert_to_percentage`]).
    pub fn read_state_of_charge(&mut self) -> (r: Result<u64, Error<I2C::BusFault>>)
        ensures
            final(self).same_device_as(old(self)),
            match r {
                Ok(v) => exists|raw: u16|
                    #![auto]
                    read_exchange(
                        old(self).bus(),
                        final(self).bus(),
                        old(self).spec_address(),
                        Register::RepSoc,
                        raw,
                    ) && v == conversion::spec_convert_to_percentage(raw),
                Err(Error::BusError(_)) => read_failed(
                    old(self).bus(),
                    final(self).bus(),
                    old(self).spec_address(),
                    Register::RepSoc,
                ),
                Err(_) => false,
            },
    {
        let raw = match self.read_named_register(Register::RepSoc) {
            Ok(v) => v,
            Err(e) => {
                return Err(e);
            },
        };
        Ok(convert_to_percentage(raw))
    }

    /// Read the cell voltage of a single cell, in nanovolts
    /// (see [`conversion::convert_to_voltage`]).
    pub fn read_vcell(&mut self) -> (r: Result<u64, Error<I2C::BusFault>>)
        ensures
            final(self).same_device_as(old(self)),
            match r {
                Ok(v) => exists|raw: u16|
                    #![auto]
                    read_exchange(
                        old(self).bus(),
                        final(self).bus(),
                        old(self).spec_address(),
                        Register::VCell,
                        raw,
                    ) && v == conversion::spec_convert_to_voltage(raw),
                Err(Error::BusError(_)) => read_failed(
                    old(self).bus(),
                    final(self).bus(),
                    old(self).spec_address(),
                    Register::VCell,
                ),
                Err(_) => false,
            },
    {
        let raw = match self.read_named_register(Register::VCell) {
            Ok(v) => v,
            Err(e) => {
                return Err(e);
            },
        };
        Ok(convert_to_voltage(raw))
    }

    /// Read the temperature, in 10^-8 degrees Celsius
    /// (see [`conversion::convert_to_temperature`]).
    pub fn read_temperature(&mut self) -> (r: Result<i64, Error<I2C::BusFault>>)
        ensures
            final(self).same_device_as(old(self)),
            match r {
                Ok(v) => exists|raw: u16|
                    #![auto]
                    read_exchange(
                        old(self).bus(),
                        final(self).bus(),
                        old(self).spec_address(),
                        Register::Temp,
                        raw,
                    ) && v == conversion::spec_convert_to_temperature(conversion::spec_as_signed(raw)),
                Err(Error::BusError(_)) => read_failed(
                    old(self).bus(),
                    final(self).bus(),
                    old(self).spec_address(),
                    Register::Temp,
                ),
                Err(_) => false,
            },
    {
        let raw = match self.read_named_register(Register::Temp) {
            Ok(v) => v,
            Err(e) => {
                return Err(e);
            },
        };
        let signed = as_signed(raw);
        let out = convert_to_temperature(signed);
        proof {
            assert(read_exchange(
                old(self).bus(),
                self.bus(),
                old(self).spec_address(),
                Register::Temp,
                raw,
            ));
            assert(out == conversion::spec_convert_to_temperature(
                conversion::spec_as_signed(raw),
            ));
        }
        Ok(out)
    }

    /// Read the internal die temperature, in 10^-8 degrees Celsius
    /// (see [`conversion::convert_to_temperature`]).
    pub fn read_die_temperature(&mut self) -> (r: Result<i64, Error<I2C::BusFault>>)
        ensures
            final(self).same_device_as(old(self)),
            match r {
                Ok(v) => exists|raw: u16|
                    #![auto]
                    read_exchange(
                        old(self).bus(),
                        final(self).bus(),
                        old(self).spec_address(),
                        Register::DieTemp,
                        raw,
                    ) && v == conversion::spec_convert_to_temperature(conversion::spec_as_signed(raw)),
                Err(Error::BusError(_)) => read_failed(
                    old(self).bus(),
                    final(self).bus(),
                    old(self).spec_address(),
                    Register::DieTemp,
                ),
                Err(_) => false,
            },
    {
        let raw = match self.read_named_register(Register::DieTemp) {
            Ok(v) => v,
            Err(e) => {
                return Err(e);
            },
        };
        let signed = as_signed(raw);
        let out = convert_to_temperature(signed);
        proof {
            assert(read_exchange(
                old(self).bus(),
                self.bus(),
                old(self).spec_address(),
                Register::DieTemp,
                raw,
            ));
            assert(out == conversion::spec_convert_to_temperature(
                conversion::spec_as_signed(raw),
            ));
        }
        Ok(out)
    }

    /// Read the battery current, in nanoamperes, discharge negative
    /// (see [`conversion::convert_to_current`]).
    pub fn read_current(&mut self) -> (r: Result<i64, Error<I2C::BusFault>>)
        requires
            old(self).wf(),
        ensures
            final(self).same_device_as(old(self)),
            match r {
                Ok(v) => exists|raw: u16|
                    #![auto]
                    read_exchange(
                        old(self).bus(),
                        final(self).bus(),
                        old(self).spec_address(),
                        Register::Current,
                        raw,
                    ) && v == conversion::spec_convert_to_current(
                        conversion::spec_as_signed(raw),
                        old(self).spec_r_sense(),
                    ),
                Err(Error::BusError(_)) => read_failed(
                    old(self).bus(),
                    final(self).bus(),
                    old(self).spec_address(),
                    Register::Current,
                ),
                Err(_) => false,
            },
    {
        let r_sense = self.r_sense;
        let raw = match self.read_named_register(Register::Current) {
            Ok(v) => v,
            Err(e) => {
                return Err(e);
            },
        };
        let signed = as_signed(raw);
        let out = convert_to_current(signed, r_sense);
        proof {
            assert(read_exchange(
                old(self).bus(),
                self.bus(),
                old(self).spec_address(),
                Register::Current,
                raw,
            ));
            assert(out == conversion::spec_convert_to_current(
                conversion::spec_as_signed(raw),
                old(self).spec_r_sense(),
            ));
        }
        Ok(out)
    }

    /// Read the time to empty, in milliseconds
    /// (see [`conversion::convert_to_time`]).
    pub fn read_time_to_empty(&mut self) -> (r: Result<u32, Error<I2C::BusFault>>)
        ensures
            final(self).same_device_as(old(self)),
            match r {
                Ok(v) => exists|raw: u16|
                    #![auto]
                    read_exchange(
                        old(self).bus(),
                        final(self).bus(),
                        old(self).spec_address(),
                        Register::TimeToEmpty,
                        raw,
                    ) && v == conversion::spec_convert_to_time(raw),
                Err(Error::BusError(_)) => read_failed(
                    old(self).bus(),
                    final(self).bus(),
                    old(self).spec_address(),
                    Register::TimeToEmpty,
                ),
                Err(_) => false,
            },
    {
        let raw = match self.read_named_register(Register::TimeToEmpty) {
            Ok(v) => v,
            Err(e) => {
                return Err(e);
            },
        };
        Ok(convert_to_time(raw))
    }

    /// Read the time to full, in milliseconds
    /// (see [`conversion::convert_to_time`]).
    pub fn read_time_to_full(&mut self) -> (r: Result<u32, Error<I2C::BusFault>>)
        ensures
            final(self).same_device_as(old(self)),
            match r {
                Ok(v) => exists|raw: u16|
                    #![auto]
                    read_exchange(
                        old(self).bus(),
                        final(self).bus(),
                        old(self).spec_address(),
                        Register::TimeToFull,
                        raw,
                    ) && v == conversion::spec_convert_to_time(raw),
                Err(Error::BusError(_)) => read_failed(
                    old(self).bus(),
                    final(self).bus(),
                    old(self).spec_address(),
                    Register::TimeToFull,
                ),
                Err(_) => false,
            },
    {
        let raw = match self.read_named_register(Register::TimeToFull) {
            Ok(v) => v,
            Err(e) => {
                return Err(e);
            },
        };
        Ok(convert_to_time(raw))
    }

    /// Read the fault flags of the protection state machine, raw. Single
    /// flags are tested with [`has_code`] against the masks of
    /// [`ProtStatusCode`].
    pub fn read_protection_status(&mut self) -> (r: Result<u16, Error<I2C::BusFault>>)
        ensures
            final(self).same_device_as(old(self)),
            reg_read_outcome(
                old(self).bus(),
                final(self).bus(),
                old(self).spec_address(),
                Register::ProtStatus.spec_addr(),
                r,
            ),
    {
        let val = match self.read_named_register(Register::ProtStatus) {
            Ok(v) => v,
            Err(e) => {
                return Err(e);
            },
        };
        Ok(val)
    }

    /// Read the sticky history of protection faults, raw. Single flags
    /// are tested with [`has_code`] against the masks of
    /// [`ProtAlertCode`].
    pub fn read_protection_alert(&mut self) -> (r: Result<u16, Error<I2C::BusFault>>)
        ensures
            final(self).same_device_as(old(self)),
            reg_read_outcome(
                old(self).bus(),
                final(self).bus(),
                old(self).spec_address(),
                Register::ProtAlrt.spec_addr(),
                r,
            ),
    {
        let val = match self.read_named_register(Register::ProtAlrt) {
            Ok(v) => v,
            Err(e) => {
                return Err(e);
            },
        };
        Ok(val)
    }

    /// Clear the protection-alert register by writing zero to it.
    pub fn clear_protection_alert(&mut self) -> (r: Result<(), Error<I2C::BusFault>>)
        ensures
            final(self).same_device_as(old(self)),
            reg_write_outcome(
                old(self).bus(),
                final(self).bus(),
                old(self).spec_address(),
                Register::ProtAlrt.spec_addr(),
                0x0000,
                r,
            ),
    {
        match self.write_named_register(Register::ProtAlrt, 0x0000) {
            Ok(()) => Ok(()),
            Err(e) => Err(e),
        }
    }

    /// Read the direct voltage measurement of cell 1, in nanovolts.
    pub fn read_cell1(&mut self) -> (r: Result<u64, Error<I2C::BusFault>>)
        ensures
            final(self).same_device_as(old(self)),
            match r {
                Ok(v) => exists|raw: u16|
                    #![auto]
                    read_exchange(
                        old(self).bus(),
                        final(self).bus(),
                        old(self).spec_address(),
                        Register::Cell1,
                        raw,
                    ) && v == conversion::spec_convert_to_voltage(raw),
                Err(Error::BusError(_)) => read_failed(
                    old(self).bus(),
                    final(self).bus(),
                    old(self).spec_address(),
                    Register::Cell1,
                ),
                Err(_) => false,
            },
    {
        let raw = match self.read_named_register(Register::Cell1) {
            Ok(v) => v,
            Err(e) => {
                return Err(e);
            },
        };
        Ok(convert_to_voltage(raw))
    }

    /// Read the direct voltage measurement of cell 2, in nanovolts.
    pub fn read_cell2(&mut self) -> (r: Result<u64, Error<I2C::BusFault>>)
        ensures
            final(self).same_device_as(old(self)),
            match r {
                Ok(v) => exists|raw: u16|
                    #![auto]
                    read_exchange(
                        old(self).bus(),
                        final(self).bus(),
                        old(self).spec_address(),
                        Register::Cell2,
                        raw,
                    ) && v == conversion::spec_convert_to_voltage(raw),
                Err(Error::BusError(_)) => read_failed(
                    old(self).bus(),
                    final(self).bus(),
                    old(self).spec_address(),
                    Register::Cell2,
                ),
                Err(_) => false,
            },
    {
        let raw = match self.read_named_register(Register::Cell2) {
            Ok(v) => v,
            Err(e) => {
                return Err(e);
            },
        };
        Ok(convert_to_voltage(raw))
    }

    /// Read the direct voltage measurement of cell 3, in nanovolts.
    pub fn read_cell3(&mut self) -> (r: Result<u64, Error<I2C::BusFault>>)
        ensures
            final(self).same_device_as(old(self)),
            match r {
                Ok(v) => exists|raw: u16|
                    #![auto]
                    read_exchange(
                        old(self).bus(),
                        final(self).bus(),
                        old(self).spec_address(),
                        Register::Cell3,
                        raw,
                    ) && v == conversion::spec_convert_to_voltage(raw),
                Err(Error::BusError(_)) => read_failed(
                    old(self).bus(),
                    final(self).bus(),
                    old(self).spec_address(),
                    Register::Cell3,
                ),
                Err(_) => false,
            },
    {
        let raw = match self.read_named_register(Register::Cell3) {
            Ok(v) => v,
            Err(e) => {
                return Err(e);
            },
        };
        Ok(convert_to_voltage(raw))
    }

    /// Read the direct voltage measurement of cell 4, in nanovolts.
    pub fn read_cell4(&mut self) -> (r: Result<u64, Error<I2C::BusFault>>)
        ensures
            final(self).same_device_as(old(self)),
            match r {
                Ok(v) => exists|raw: u16|
                    #![auto]
                    read_exchange(
                        old(self).bus(),
                        final(self).bus(),
                        old(self).spec_address(),
                        Register::Cell4,
                        raw,
                    ) && v == conversion::spec_convert_to_voltage(raw),
                Err(Error::BusError(_)) => read_failed(
                    old(self).bus(),
                    final(self).bus(),
                    old(self).spec_address(),
                    Register::Cell4,
                ),
                Err(_) => false,
            },
    {
        let raw = match self.read_named_register(Register::Cell4) {
            Ok(v) => v,
            Err(e) => {
                return Err(e);
            },
        };
        Ok(convert_to_voltage(raw))
    }

    /// Read the total pack voltage measured inside the protector, in
    /// nanovolts.
    pub fn read_batt(&mut self) -> (r: Result<u64, Error<I2C::BusFault>>)
        ensures
            final(self).same_device_as(old(self)),
            match r {
                Ok(v) => exists|raw: u16|
                    #![auto]
                    read_exchange(
                        old(self).bus(),
                        final(self).bus(),
                        old(self).spec_address(),
                        Register::Batt,
                        raw,
                    ) && v == conversion::spec_convert_to_voltage(raw),
                Err(Error::BusError(_)) => read_failed(
                    old(self).bus(),
                    final(self).bus(),
                    old(self).spec_address(),
                    Register::Batt,
                ),
                Err(_) => false,
            },
    {
        let raw = match self.read_named_register(Register::Batt) {
            Ok(v) => v,
            Err(e) => {
                return Err(e);
            },
        };
        Ok(convert_to_voltage(raw))
    }

    /// Read the voltage between the pack pin and ground, in nanovolts.
    pub fn read_pckp(&mut self) -> (r: Result<u64, Error<I2C::BusFault>>)
        ensures
            final(self).same_device_as(old(self)),
            match r {
                Ok(v) => exists|raw: u16|
                    #![auto]
                    read_exchange(
                        old(self).bus(),
                        final(self).bus(),
                        old(self).spec_address(),
                        Register::Pckp,
                        raw,
                    ) && v == conversion::spec_convert_to_voltage(raw),
                Err(Error::BusError(_)) => read_failed(
                    old(self).bus(),
                    final(self).bus(),
                    old(self).spec_address(),
                    Register::Pckp,
                ),
                Err(_) => false,
            },
    {
        let raw = match self.read_named_register(Register::Pckp) {
            Ok(v) => v,
            Err(e) => {
                return Err(e);
            },
        };
        Ok(convert_to_voltage(raw))
    }

    /// Read the permanent battery status information from the
    /// nonvolatile-shadow space, raw.
    pub fn read_battery_status(&mut self) -> (r: Result<u16, Error<I2C::BusFault>>)
        ensures
            final(self).same_device_as(old(self)),
            reg_read_outcome(
                old(self).bus(),
                final(self).bus(),
                old(self).spec_address_nvm(),
                RegisterNvm::NBattStatus.spec_addr(),
                r,
            ),
    {
        let val = match self.read_named_register_nvm(RegisterNvm::NBattStatus) {
            Ok(v) => v,
            Err(e) => {
                return Err(e);
            },
        };
        Ok(val)
    }

    /// Read the pack configuration from the nonvolatile-shadow space, raw.
    pub fn read_pack_config(&mut self) -> (r: Result<u16, Error<I2C::BusFault>>)
        ensures
            final(self).same_device_as(old(self)),
            reg_read_outcome(
                old(self).bus(),
                final(self).bus(),
                old(self).spec_address_nvm(),
                RegisterNvm::NPackCfg.spec_addr(),
                r,
            ),
    {
        let val = match self.read_named_register_nvm(RegisterNvm::NPackCfg) {
            Ok(v) => v,
            Err(e) => {
                return Err(e);
            },
        };
        Ok(val)
    }

    /// Set the pack configuration according to the application schematic.
    ///
    /// The cell count must be 2 to 4 and the thermistor-channel count 0
    /// to 4 (the die thermistor not counted); an out-of-range count is
    /// rejected with the offending value before anything touches the bus.
    /// A valid configuration is packed into one code and committed to the
    /// nonvolatile pack-configuration register between a protection
    /// unlock and lock.
    pub fn set_pack_config(
        &mut self,
        n_cells: u8,
        n_therms: u8,
        therm_type: ThermistorType,
        charge_pump_voltage_config: ChargePumpVoltageConfiguration,
        always_on_regulator_config: AlwaysOnRegulatorConfiguration,
        battery_pack_update: BatteryPackUpdate,
    ) -> (r: Result<(), Error<I2C::BusFault>>)
        ensures
            final(self).same_device_as(old(self)),
            !config::spec_valid_n_cells(n_cells) ==> r == Err::<(), Error<I2C::BusFault>>(
                Error::InvalidConfigurationValue(n_cells as u16),
            ) && final(self).bus() == old(self).bus(),
            config::spec_valid_n_cells(n_cells) && !config::spec_valid_n_therms(n_therms) ==> r
                == Err::<(), Error<I2C::BusFault>>(Error::InvalidConfigurationValue(n_therms as u16))
                && final(self).bus() == old(self).bus(),
            config::spec_valid_n_cells(n_cells) && config::spec_valid_n_therms(n_therms)
                ==> locked_nvm_commit(
                old(self).bus(),
                final(self).bus(),
                old(self).spec_address(),
                old(self).spec_address_nvm(),
                RegisterNvm::NPackCfg,
                config::spec_pack_config_code(
                    n_cells,
                    n_therms,
                    therm_type,
                    charge_pump_voltage_config,
                    always_on_regulator_config,
                    battery_pack_update,
                ),
                r,
            ),
    {
        if n_cells < 2 || n_cells > 4 {
            return Err(Error::InvalidConfigurationValue(n_cells as u16));
        }
        if n_therms > 4 {
            return Err(Error::InvalidConfigurationValue(n_therms as u16));
        }
        let code = config::pack_config_code(
            n_cells,
            n_therms,
            therm_type,
            charge_pump_voltage_config,
            always_on_regulator_config,
            battery_pack_update,
        );
        match self.unlock_write_protection() {
            Ok(()) => {},
            Err(e) => {
                return Err(e);
            },
        }
        let ghost unlocked = self.bus();
        match self.write_nonvolatile(RegisterNvm::NPackCfg, code) {
            Ok(()) => {},
            Err(e) => {
                return Err(e);
            },
        }
        let ghost committed = self.bus();
        let out = self.lock_write_protection();
        proof {
            assert(nvm_write_committed(
                unlocked,
                committed,
                old(self).spec_address(),
                old(self).spec_address_nvm(),
                RegisterNvm::NPackCfg,
                code,
            ));
        }
        out
    }

    /// Enable or disable the alert on the fuel-gauge outputs (bit 2 of
    /// the configuration register). Enabling it also switches alert
    /// shutdown off first, so an alert cannot drive the device into
    /// shutdown mode; disabling it leaves alert shutdown as it is.
    pub fn set_alert_output_enable(&mut self, enable: bool) -> (r: Result<
        (),
        Error<I2C::BusFault>,
    >)
        ensures
            final(self).same_device_as(old(self)),
            alert_output_outcome(
                old(self).bus(),
                final(self).bus(),
                old(self).spec_address(),
                old(self).spec_address_nvm(),
                enable,
                r,
            ),
    {
        let current_config = match self.read_named_register(Register::Config) {
            Ok(v) => v,
            Err(e) => {
                return Err(e);
            },
        };
        let ghost after_read = self.bus();
        if enable {
            let new_config = set_bit(current_config, 2);
            proof {
                assert(new_config == spec_alert_output_update(current_config, true));
            }
            match self.set_alert_shutdown_enable(false) {
                Ok(()) => {},
                Err(e) => {
                    return Err(e);
                },
            }
            let ghost after_shutdown = self.bus();
            let out = self.write_named_register(Register::Config, new_config);
            proof {
                assert(alert_shutdown_committed(
                    after_read,
                    after_shutdown,
                    old(self).spec_address_nvm(),
                    false,
                ));
            }
            out
        } else {
            let new_config = clear_bit(current_config, 2);
            proof {
                assert(new_config == spec_alert_output_update(current_config, false));
            }
            self.write_named_register(Register::Config, new_config)
        }
    }

    /// Enable or disable alert shutdown (bit 5 of the nonvolatile
    /// configuration register): while enabled, an asserted alert pin
    /// sends the device into shutdown mode.
    pub fn set_alert_shutdown_enable(&mut self, enable: bool) -> (r: Result<
        (),
        Error<I2C::BusFault>,
    >)
        ensures
            final(self).same_device_as(old(self)),
            alert_shutdown_outcome(
                old(self).bus(),
                final(self).bus(),
                old(self).spec_address_nvm(),
                enable,
                r,
            ),
    {
        let current_nconfig = match self.read_named_register_nvm(RegisterNvm::NConfig) {
            Ok(v) => v,
            Err(e) => {
                return Err(e);
            },
        };
        let new_nconfig = if enable {
            set_bit(current_nconfig, 5)
        } else {
            clear_bit(current_nconfig, 5)
        };
        proof {
            assert(new_nconfig == spec_shutdown_update(current_nconfig, enable));
        }
        self.write_named_register_nvm(RegisterNvm::NConfig, new_nconfig)
    }

    /// Set the voltage bounds that raise an alert when any cell voltage
    /// reading leaves them.
    ///
    /// Each bound is in millivolts and must be a multiple of 20 mV
    /// between 0 and 5100 mV; an invalid bound is rejected with its value
    /// clamped to the register's width, before anything touches the bus.
    /// The bounds are packed into one register, maximum in the high byte.
    pub fn set_voltage_alert_threshold(&mut self, min_mv: i32, max_mv: i32) -> (r: Result<
        (),
        Error<I2C::BusFault>,
    >)
        ensures
            final(self).same_device_as(old(self)),
            !conversion::spec_is_valid_voltage_threshold(max_mv as int) ==> {
                &&& r == Err::<(), Error<I2C::BusFault>>(
                    Error::InvalidConfigurationValue(spec_saturate_u16(max_mv as int)),
                )
                &&& final(self).bus() == old(self).bus()
            },
            conversion::spec_is_valid_voltage_threshold(max_mv as int)
                && !conversion::spec_is_valid_voltage_threshold(min_mv as int) ==> {
                &&& r == Err::<(), Error<I2C::BusFault>>(
                    Error::InvalidConfigurationValue(spec_saturate_u16(min_mv as int)),
                )
                &&& final(self).bus() == old(self).bus()
            },
            conversion::spec_is_valid_voltage_threshold(min_mv as int)
                && conversion::spec_is_valid_voltage_threshold(max_mv as int)
                ==> reg_write_outcome(
                old(self).bus(),
                final(self).bus(),
                old(self).spec_address(),
                Register::VAlrtTh.spec_addr(),
                conversion::spec_voltage_threshold_code(min_mv as int, max_mv as int),
                r,
            ),
    {
        if !is_valid_voltage_threshold(max_mv) {
            return Err(Error::InvalidConfigurationValue(saturate_u16(max_mv)));
        }
        if !is_valid_voltage_threshold(min_mv) {
            return Err(Error::InvalidConfigurationValue(saturate_u16(min_mv)));
        }
        let min_byte = ((min_mv as u16) / 20) as u8;
        let max_byte = ((max_mv as u16) / 20) as u8;
        let threshold_code = conversion::threshold_code(min_byte, max_byte);
        self.write_named_register(Register::VAlrtTh, threshold_code)
    }

    /// Read the voltage alert bounds back, as (minimum, maximum) in
    /// millivolts: the low byte scaled by 20 mV is the minimum, the high
    /// byte the maximum.
    pub fn read_volatage_alert_threshold(&mut self) -> (r: Result<
        (i32, i32),
        Error<I2C::BusFault>,
    >)
        ensures
            final(self).same_device_as(old(self)),
            match r {
                Ok(p) => exists|code: u16|
                    #![auto]
                    read_exchange(
                        old(self).bus(),
                        final(self).bus(),
                        old(self).spec_address(),
                        Register::VAlrtTh,
                        code,
                    ) && p.0 == conversion::spec_threshold_min_byte(code) * 20 && p.1
                        == conversion::spec_threshold_max_byte(code) * 20,
                Err(Error::BusError(_)) => read_failed(
                    old(self).bus(),
                    final(self).bus(),
                    old(self).spec_address(),
                    Register::VAlrtTh,
                ),
                Err(_) => false,
            },
    {
        let code = match self.read_named_register(Register::VAlrtTh) {
            Ok(v) => v,
            Err(e) => {
                return Err(e);
            },
        };
        let min_mv = (conversion::threshold_min_byte(code) as i32) * 20;
        let max_mv = (conversion::threshold_max_byte(code) as i32) * 20;
        proof {
            assert(read_exchange(
                old(self).bus(),
                self.bus(),
                old(self).spec_address(),
                Register::VAlrtTh,
                code,
            ));
        }
        Ok((min_mv, max_mv))
    }

    /// Set the temperature bounds that raise an alert when any
    /// thermistor reading leaves them. Each bound is in whole degrees
    /// Celsius, -128 to 127; the pair is packed into one register,
    /// maximum in the high byte, each bound as its two's-complement byte.
    pub fn set_temperature_alert_threshold(&mut self, min_t: i8, max_t: i8) -> (r: Result<
        (),
        Error<I2C::BusFault>,
    >)
        ensures
            final(self).same_device_as(old(self)),
            reg_write_outcome(
                old(self).bus(),
                final(self).bus(),
                old(self).spec_address(),
                Register::TAlrtTh.spec_addr(),
                conversion::spec_threshold_code(
                    conversion::spec_as_byte(min_t),
                    conversion::spec_as_byte(max_t),
                ),
                r,
            ),
    {
        let threshold_code = conversion::threshold_code(
            conversion::as_byte(min_t),
            conversion::as_byte(max_t),
        );
        self.write_named_register(Register::TAlrtTh, threshold_code)
    }

    /// Read the temperature alert bounds back, as (minimum, maximum) in
    /// whole degrees Celsius: the low byte is the minimum, the high byte
    /// the maximum, each read as a two's-complement byte.
    pub fn read_temperature_alert_threshold(&mut self) -> (r: Result<
        (i8, i8),
        Error<I2C::BusFault>,
    >)
        ensures
            final(self).same_device_as(old(self)),
            match r {
                Ok(p) => exists|code: u16|
                    #![auto]
                    read_exchange(
                        old(self).bus(),
                        final(self).bus(),
                        old(self).spec_address(),
                        Register::TAlrtTh,
                        code,
                    ) && p.0 == conversion::spec_as_signed_byte(
                        conversion::spec_threshold_min_byte(code),
                    ) && p.1 == conversion::spec_as_signed_byte(
                        conversion::spec_threshold_max_byte(code),
                    ),
                Err(Error::BusError(_)) => read_failed(
                    old(self).bus(),
                    final(self).bus(),
                    old(self).spec_address(),
                    Register::TAlrtTh,
                ),
                Err(_) => false,
            },
    {
        let code = match self.read_named_register(Register::TAlrtTh) {
            Ok(v) => v,
            Err(e) => {
                return Err(e);
            },
        };
        let min_t = conversion::as_signed_byte(conversion::threshold_min_byte(code));
        let max_t = conversion::as_signed_byte(conversion::threshold_max_byte(code));
        proof {
            assert(read_exchange(
                old(self).bus(),
                self.bus(),
                old(self).spec_address(),
                Register::TAlrtTh,
                code,
            ));
            assert(min_t == conversion::spec_as_signed_byte(
                conversion::spec_threshold_min_byte(code),
            ));
            assert(max_t == conversion::spec_as_signed_byte(
                conversion::spec_threshold_max_byte(code),
            ));
        }
        Ok((min_t, max_t))
    }

    /// Set the state-of-charge bounds that raise an alert when the
    /// selected state-of-charge reading leaves them. Each bound is in
    /// whole percent, 0 to 255; the pair is packed into one register,
    /// maximum in the high byte.
    pub fn set_state_of_charge_alert_threshold(&mut self, min_soc: u8, max_soc: u8) -> (r: Result<
        (),
        Error<I2C::BusFault>,
    >)
        ensures
            final(self).same_device_as(old(self)),
            reg_write_outcome(
                old(self).bus(),
                final(self).bus(),
                old(self).spec_address(),
                Register::SAlrtTh.spec_addr(),
                conversion::spec_threshold_code(min_soc, max_soc),
                r,
            ),
    {
        let threshold_code = conversion::threshold_code(min_soc, max_soc);
        self.write_named_register(Register::SAlrtTh, threshold_code)
    }

    /// Read the state-of-charge alert bounds back, as (minimum, maximum)
    /// in whole percent: the low byte is the minimum, the high byte the
    /// maximum.
    pub fn read_state_of_charge_alert_threshold(&mut self) -> (r: Result<
        (u8, u8),
        Error<I2C::BusFault>,
    >)
        ensures
            final(self).same_device_as(old(self)),
            match r {
                Ok(p) => exists|code: u16|
                    #![auto]
                    read_exchange(
                        old(self).bus(),
                        final(self).bus(),
                        old(self).spec_address(),
                        Register::SAlrtTh,
                        code,
                    ) && p.0 == conversion::spec_threshold_min_byte(code) && p.1
                        == conversion::spec_threshold_max_byte(code),
                Err(Error::BusError(_)) => read_failed(
                    old(self).bus(),
                    final(self).bus(),
                    old(self).spec_address(),
                    Register::SAlrtTh,
                ),
                Err(_) => false,
            },
    {
        let code = match self.read_named_register(Register::SAlrtTh) {
            Ok(v) => v,
            Err(e) => {
                return Err(e);
            },
        };
        let min_soc = conversion::threshold_min_byte(code);
        let max_soc = conversion::threshold_max_byte(code);
        proof {
            assert(read_exchange(
                old(self).bus(),
                self.bus(),
                old(self).spec_address(),
                Register::SAlrtTh,
                code,
            ));
        }
        Ok((min_soc, max_soc))
    }

    /// Set the current bounds that raise an alert when a current reading
    /// leaves them. Each bound is a signed count of 400 microvolt steps
    /// across the sense resistor, -128 to 127; the pair is packed into
    /// one register, maximum in the high byte, each bound as its
    /// two's-complement byte.
    pub fn set_current_alert_threshold(&mut self, min_i: i8, max_i: i8) -> (r: Result<
        (),
        Error<I2C::BusFault>,
    >)
        ensures
            final(self).same_device_as(old(self)),
            reg_write_outcome(
                old(self).bus(),
                final(self).bus(),
                old(self).spec_address(),
                Register::IAlrtTh.spec_addr(),
                conversion::spec_threshold_code(
                    conversion::spec_as_byte(min_i),
                    conversion::spec_as_byte(max_i),
                ),
                r,
            ),
    {
        let threshold_code = conversion::threshold_code(
            conversion::as_byte(min_i),
            conversion::as_byte(max_i),
        );
        self.write_named_register(Register::IAlrtTh, threshold_code)
    }

    /// Read the current alert bounds back, as (minimum, maximum) in
    /// signed counts of 400 microvolt steps: the low byte is the
    /// minimum, the high byte the maximum, each read as a
    /// two's-complement byte.
    pub fn read_current_alert_threshold(&mut self) -> (r: Result<(i8, i8), Error<I2C::BusFault>>)
        ensures
            final(self).same_device_as(old(self)),
            match r {
                Ok(p) => exists|code: u16|
                    #![auto]
                    read_exchange(
                        old(self).bus(),
                        final(self).bus(),
                        old(self).spec_address(),
                        Register::IAlrtTh,
                        code,
                    ) && p.0 == conversion::spec_as_signed_byte(
                        conversion::spec_threshold_min_byte(code),
                    ) && p.1 == conversion::spec_as_signed_byte(
                        conversion::spec_threshold_max_byte(code),
                    ),
                Err(Error::BusError(_)) => read_failed(
                    old(self).bus(),
                    final(self).bus(),
                    old(self).spec_address(),
                    Register::IAlrtTh,
                ),
                Err(_) => false,
            },
    {
        let code = match self.read_named_register(Register::IAlrtTh) {
            Ok(v) => v,
            Err(e) => {
                return Err(e);
            },
        };
        let min_i = conversion::as_signed_byte(conversion::threshold_min_byte(code));
        let max_i = conversion::as_signed_byte(conversion::threshold_max_byte(code));
        proof {
            assert(read_exchange(
                old(self).bus(),
                self.bus(),
                old(self).spec_address(),
                Register::IAlrtTh,
                code,
            ));
            assert(min_i == conversion::spec_as_signed_byte(
                conversion::spec_threshold_min_byte(code),
            ));
            assert(max_i == conversion::spec_as_signed_byte(
                conversion::spec_threshold_max_byte(code),
            ));
        }
        Ok((min_i, max_i))
    }
}

/// A register value's worth of an out-of-range parameter: the parameter
/// clamped to the width of the 16-bit value an
/// [`Error::InvalidConfigurationValue`] carries.
pub open spec fn spec_saturate_u16(v: int) -> u16 {
    if v < 0 {
        0
    } else if v > 65535 {
        65535
    } else {
        v as u16
    }
}

/// Clamp an out-of-range parameter to the width of the 16-bit value an
/// [`Error::InvalidConfigurationValue`] carries.
fn saturate_u16(v: i32) -> (r: u16)
    ensures
        r == spec_saturate_u16(v as int),
{
    if v < 0 {
        0
    } else if v > 65535 {
        65535
    } else {
        v as u16
    }
}

} // verus!
