use vstd::prelude::*;
use crate::adc::AdcHumidity;
use crate::adc::AdcPressure;
use crate::adc::AdcTemperature;
use crate::adc::sample16;
use crate::adc::sample20;
use crate::adc::spec_sample16;
use crate::adc::spec_sample20;
use crate::bus::BusOp;
use crate::bus::I2c;
use crate::bus::MemoryBus;
use crate::calibration::Calibration;
use crate::calibration::decode_calibration;
use crate::calibration::spec_decode_calibration;
use crate::control::HumidityOverSamplingControl;
use crate::control::InactiveDurationControl;
use crate::control::InfiniteImpulseResponseControl;
use crate::control::PressureOverSamplingControl;
use crate::control::SensorModeControl;
use crate::control::SetUpParams;
use crate::control::Spi3;
use crate::control::Status;
use crate::control::TemperatureOverSamplingControl;
use crate::error::Bme280Result;
use crate::registers::RegisterAddress;

verus! {

/// The sentinel byte that triggers a device reset when written to the
/// reset register.
pub const RESET_VALUE: u8 = 0xB6;

/// The reads of the first `vals.len()` registers of `regs`, in order,
/// returning those bytes.  An operation that reads `regs` and is stopped
/// by the first bus error extends the log by exactly such a stretch, for
/// some proper prefix of the values.
pub open spec fn spec_reads(regs: Seq<RegisterAddress>, vals: Seq<u8>) -> Seq<BusOp>
    recommends
        vals.len() <= regs.len(),
{
    Seq::new(vals.len(), |i: int| BusOp::Read(regs[i], vals[i]))
}

/// The registers of a raw temperature reading, in read order.
pub open spec fn spec_temperature_registers() -> Seq<RegisterAddress> {
    seq![RegisterAddress::TempM, RegisterAddress::TempL, RegisterAddress::TempXl]
}

/// The registers of a raw humidity reading, in read order.
pub open spec fn spec_humidity_registers() -> Seq<RegisterAddress> {
    seq![RegisterAddress::HumM, RegisterAddress::HumL]
}

/// The registers of a raw pressure reading, in read order.
pub open spec fn spec_pressure_registers() -> Seq<RegisterAddress> {
    seq![RegisterAddress::PressM, RegisterAddress::PressL, RegisterAddress::PressXl]
}

/// The eight registers of one raw sampling cycle, in read order:
/// temperature first, then humidity, then pressure.
pub open spec fn spec_cycle_registers() -> Seq<RegisterAddress> {
    spec_temperature_registers() + spec_humidity_registers() + spec_pressure_registers()
}

/// The three control writes `set_up` issues, in their required order:
/// humidity oversampling first, then the packed measurement-control byte,
/// then the packed config byte.
pub open spec fn spec_set_up_writes(params: SetUpParams) -> Seq<BusOp> {
    seq![
        BusOp::Write(RegisterAddress::CtrlHum, params.humidity_sampling.spec_bits()),
        BusOp::Write(RegisterAddress::CtrlMeas, params.spec_measure_control_byte()),
        BusOp::Write(RegisterAddress::Config, params.spec_config_byte()),
    ]
}

/// The 32 calibration-register reads behind a loaded block, byte `i` of
/// `vals` coming from calibration register `i`.
pub open spec fn spec_calibration_reads(vals: Seq<u8>) -> Seq<BusOp> {
    Seq::new(
        vals.len(),
        |i: int| BusOp::Read(RegisterAddress::spec_calibration_register(i), vals[i]),
    )
}

/// The driver's register protocol over an injected bus: configuration,
/// reset, status, calibration load and raw reads.  Every operation's
/// contract pins down the exact transactions it puts on the bus log, and
/// the first bus failure aborts the remainder of the operation.
pub trait Bme280Core: I2c {
    /// Write the reset sentinel to the reset register: exactly that one
    /// write, to that one register, and nothing else.
    fn reset(&mut self) -> (r: Bme280Result<()>)
        ensures
            r is Ok ==> final(self).log() == old(self).log().push(
                BusOp::Write(RegisterAddress::Reset, RESET_VALUE),
            ),
            r is Err ==> final(self).log() == old(self).log(),
    {
        match self.write_byte_data(RegisterAddress::Reset, RESET_VALUE) {
            Ok(_) => Ok(()),
            Err(e) => Err(e),
        }
    }

    /// Write the humidity oversampling field to `CtrlHum`.
    fn set_hum_control(&mut self, humidity_sampling: HumidityOverSamplingControl) -> (r:
        Bme280Result<()>)
        ensures
            r is Ok ==> final(self).log() == old(self).log().push(
                BusOp::Write(RegisterAddress::CtrlHum, humidity_sampling.spec_bits()),
            ),
            r is Err ==> final(self).log() == old(self).log(),
    {
        let bits = humidity_sampling.bits();
        match self.write_byte_data(RegisterAddress::CtrlHum, bits) {
            Ok(_) => Ok(()),
            Err(e) => Err(e),
        }
    }

    /// Write the packed temperature-oversampling / pressure-oversampling /
    /// power-mode byte to `CtrlMeas`.
    fn set_measure_control(
        &mut self,
        temp: TemperatureOverSamplingControl,
        press: PressureOverSamplingControl,
        mode: SensorModeControl,
    ) -> (r: Bme280Result<()>)
        ensures
            r is Ok ==> final(self).log() == old(self).log().push(
                BusOp::Write(
                    RegisterAddress::CtrlMeas,
                    temp.spec_bits() | press.spec_bits() | mode.spec_bits(),
                ),
            ),
            r is Err ==> final(self).log() == old(self).log(),
    {
        let byte = temp.bits() | press.bits() | mode.bits();
        match self.write_byte_data(RegisterAddress::CtrlMeas, byte) {
            Ok(_) => Ok(()),
            Err(e) => Err(e),
        }
    }

    /// Write the packed inactive-duration / IIR-filter / bus-variant byte
    /// to `Config`.
    fn set_config(
        &mut self,
        duration: InactiveDurationControl,
        iir: InfiniteImpulseResponseControl,
        spi: Spi3,
    ) -> (r: Bme280Result<()>)
        ensures
            r is Ok ==> final(self).log() == old(self).log().push(
                BusOp::Write(
                    RegisterAddress::Config,
                    duration.spec_bits() | iir.spec_bits() | spi.spec_bits(),
                ),
            ),
            r is Err ==> final(self).log() == old(self).log(),
    {
        let byte = duration.bits() | iir.bits() | spi.bits();
        match self.write_byte_data(RegisterAddress::Config, byte) {
            Ok(_) => Ok(()),
            Err(e) => Err(e),
        }
    }

    /// Write the three control registers in their required order; a
    /// failure aborts the sequence, leaving the earlier writes in place.
    fn set_up(&mut self, params: SetUpParams) -> (r: Bme280Result<()>)
        ensures
            r is Ok ==> final(self).log() == old(self).log() + spec_set_up_writes(params),
            r is Err ==> exists|k: int|
                0 <= k < 3 && final(self).log() == old(self).log() + spec_set_up_writes(
                    params,
                ).take(k),
    {
        match self.set_hum_control(params.humidity_sampling) {
            Ok(_) => {},
            Err(e) => {
                proof {
                    assert(self.log() =~= old(self).log() + spec_set_up_writes(params).take(0));
                }
                return Err(e);
            },
        }
        match self.set_measure_control(
            params.temperature_sampling,
            params.pressure_sampling,
            params.sensor_mode,
        ) {
            Ok(_) => {},
            Err(e) => {
                proof {
                    assert(self.log() =~= old(self).log() + spec_set_up_writes(params).take(1));
                }
                return Err(e);
            },
        }
        match self.set_config(params.duration, params.iir, params.spi) {
            Ok(_) => {},
            Err(e) => {
                proof {
                    assert(self.log() =~= old(self).log() + spec_set_up_writes(params).take(2));
                }
                return Err(e);
            },
        }
        proof {
            assert(self.log() =~= old(self).log() + spec_set_up_writes(params));
        }
        Ok(())
    }

    /// Read the status register and expose its two flag bits.
    fn get_status(&mut self) -> (r: Bme280Result<Status>)
        ensures
            r matches Ok(s) ==> final(self).log() == old(self).log().push(
                BusOp::Read(RegisterAddress::Status, s.spec_raw()),
            ),
            r is Err ==> final(self).log() == old(self).log(),
    {
        match self.read_byte_data(RegisterAddress::Status) {
            Ok(v) => Ok(Status::new(v)),
            Err(e) => Err(e),
        }
    }

    /// Read the two humidity bytes, most significant first, and assemble
    /// the 16-bit raw value.
    fn get_adc_humidity(&mut self) -> (r: Bme280Result<AdcHumidity>)
        ensures
            r matches Ok(a) ==> exists|m: u8, l: u8|
                final(self).log() == old(self).log() + seq![
                    BusOp::Read(RegisterAddress::HumM, m),
                    BusOp::Read(RegisterAddress::HumL, l),
                ] && a.0 == spec_sample16(m, l),
            r is Err ==> exists|vals: Seq<u8>|
                vals.len() < 2 && final(self).log() == old(self).log() + spec_reads(
                    spec_humidity_registers(),
                    vals,
                ),
    {
        let m = match self.read_byte_data(RegisterAddress::HumM) {
            Ok(v) => v,
            Err(e) => {
                proof {
                    assert(self.log() =~= old(self).log() + spec_reads(
                        spec_humidity_registers(),
                        Seq::<u8>::empty(),
                    ));
                }
                return Err(e);
            },
        };
        let l = match self.read_byte_data(RegisterAddress::HumL) {
            Ok(v) => v,
            Err(e) => {
                proof {
                    assert(self.log() =~= old(self).log() + spec_reads(
                        spec_humidity_registers(),
                        seq![m],
                    ));
                }
                return Err(e);
            },
        };
        let value = sample16(m, l);
        proof {
            assert(self.log() =~= old(self).log() + seq![
                BusOp::Read(RegisterAddress::HumM, m),
                BusOp::Read(RegisterAddress::HumL, l),
            ]);
        }
        Ok(AdcHumidity(value))
    }

    /// Read the three pressure bytes, most significant first, and assemble
    /// the 20-bit raw value.
    fn get_adc_pressure(&mut self) -> (r: Bme280Result<AdcPressure>)
        ensures
            r matches Ok(a) ==> exists|m: u8, l: u8, x: u8|
                final(self).log() == old(self).log() + seq![
                    BusOp::Read(RegisterAddress::PressM, m),
                    BusOp::Read(RegisterAddress::PressL, l),
                    BusOp::Read(RegisterAddress::PressXl, x),
                ] && a.0 == spec_sample20(m, l, x),
            r is Err ==> exists|vals: Seq<u8>|
                vals.len() < 3 && final(self).log() == old(self).log() + spec_reads(
                    spec_pressure_registers(),
                    vals,
                ),
    {
        let m = match self.read_byte_data(RegisterAddress::PressM) {
            Ok(v) => v,
            Err(e) => {
                proof {
                    assert(self.log() =~= old(self).log() + spec_reads(
                        spec_pressure_registers(),
                        Seq::<u8>::empty(),
                    ));
                }
                return Err(e);
            },
        };
        let l = match self.read_byte_data(RegisterAddress::PressL) {
            Ok(v) => v,
            Err(e) => {
                proof {
                    assert(self.log() =~= old(self).log() + spec_reads(
                        spec_pressure_registers(),
                        seq![m],
                    ));
                }
                return Err(e);
            },
        };
        let x = match self.read_byte_data(RegisterAddress::PressXl) {
            Ok(v) => v,
            Err(e) => {
                proof {
                    assert(self.log() =~= old(self).log() + spec_reads(
                        spec_pressure_registers(),
                        seq![m, l],
                    ));
                }
                return Err(e);
            },
        };
        let value = sample20(m, l, x);
        proof {
            assert(self.log() =~= old(self).log() + seq![
                BusOp::Read(RegisterAddress::PressM, m),
                BusOp::Read(RegisterAddress::PressL, l),
                BusOp::Read(RegisterAddress::PressXl, x),
            ]);
        }
        Ok(AdcPressure(value))
    }

    /// Read the three temperature bytes, most significant first, and
    /// assemble the 20-bit raw value.
    fn get_adc_temperature(&mut self) -> (r: Bme280Result<AdcTemperature>)
        ensures
            r matches Ok(a) ==> exists|m: u8, l: u8, x: u8|
                final(self).log() == old(self).log() + seq![
                    BusOp::Read(RegisterAddress::TempM, m),
                    BusOp::Read(RegisterAddress::TempL, l),
                    BusOp::Read(RegisterAddress::TempXl, x),
                ] && a.0 == spec_sample20(m, l, x),
            r is Err ==> exists|vals: Seq<u8>|
                vals.len() < 3 && final(self).log() == old(self).log() + spec_reads(
                    spec_temperature_registers(),
                    vals,
                ),
    {
        let m = match self.read_byte_data(RegisterAddress::TempM) {
            Ok(v) => v,
            Err(e) => {
                proof {
                    assert(self.log() =~= old(self).log() + spec_reads(
                        spec_temperature_registers(),
                        Seq::<u8>::empty(),
                    ));
                }
                return Err(e);
            },
        };
        let l = match self.read_byte_data(RegisterAddress::TempL) {
            Ok(v) => v,
            Err(e) => {
                proof {
                    assert(self.log() =~= old(self).log() + spec_reads(
                        spec_temperature_registers(),
                        seq![m],
                    ));
                }
                return Err(e);
            },
        };
        let x = match self.read_byte_data(RegisterAddress::TempXl) {
            Ok(v) => v,
            Err(e) => {
                proof {
                    assert(self.log() =~= old(self).log() + spec_reads(
                        spec_temperature_registers(),
                        seq![m, l],
                    ));
                }
                return Err(e);
            },
        };
        let value = sample20(m, l, x);
        proof {
            assert(self.log() =~= old(self).log() + seq![
                BusOp::Read(RegisterAddress::TempM, m),
                BusOp::Read(RegisterAddress::TempL, l),
                BusOp::Read(RegisterAddress::TempXl, x),
            ]);
        }
        Ok(AdcTemperature(value))
    }

    /// One raw sampling cycle: read the temperature bytes first, then the
    /// humidity pair, then the pressure triple, and hand the three
    /// assembled raw values back together.
    fn get_results(&mut self) -> (r: Bme280Result<(AdcTemperature, AdcHumidity, AdcPressure)>)
        ensures
            r matches Ok(t) ==> exists|tm: u8, tl: u8, tx: u8, hm: u8, hl: u8, pm: u8, pl: u8, px: u8|
                final(self).log() == old(self).log() + seq![
                    BusOp::Read(RegisterAddress::TempM, tm),
                    BusOp::Read(RegisterAddress::TempL, tl),
                    BusOp::Read(RegisterAddress::TempXl, tx),
                    BusOp::Read(RegisterAddress::HumM, hm),
                    BusOp::Read(RegisterAddress::HumL, hl),
                    BusOp::Read(RegisterAddress::PressM, pm),
                    BusOp::Read(RegisterAddress::PressL, pl),
                    BusOp::Read(RegisterAddress::PressXl, px),
                ] && t.0.0 == spec_sample20(tm, tl, tx) && t.1.0 == spec_sample16(hm, hl)
                    && t.2.0 == spec_sample20(pm, pl, px),
            r is Err ==> exists|vals: Seq<u8>|
                vals.len() < 8 && final(self).log() == old(self).log() + spec_reads(
                    spec_cycle_registers(),
                    vals,
                ),
    {
        let adc_t = match self.get_adc_temperature() {
            Ok(v) => v,
            Err(e) => {
                proof {
                    let tvals = choose|tv: Seq<u8>|
                        tv.len() < 3 && self.log() == old(self).log() + spec_reads(
                            spec_temperature_registers(),
                            tv,
                        );
                    assert(spec_reads(spec_cycle_registers(), tvals) =~= spec_reads(
                        spec_temperature_registers(),
                        tvals,
                    ));
                    assert(tvals.len() < 8 && self.log() == old(self).log() + spec_reads(
                        spec_cycle_registers(),
                        tvals,
                    ));
                }
                return Err(e);
            },
        };
        let ghost log1 = self.log();
        let ghost (tm, tl, tx) = choose|tm: u8, tl: u8, tx: u8|
            log1 == old(self).log() + seq![
                BusOp::Read(RegisterAddress::TempM, tm),
                BusOp::Read(RegisterAddress::TempL, tl),
                BusOp::Read(RegisterAddress::TempXl, tx),
            ] && adc_t.0 == spec_sample20(tm, tl, tx);
        let adc_h = match self.get_adc_humidity() {
            Ok(v) => v,
            Err(e) => {
                proof {
                    let hvals = choose|hv: Seq<u8>|
                        hv.len() < 2 && self.log() == log1 + spec_reads(
                            spec_humidity_registers(),
                            hv,
                        );
                    let vals = seq![tm, tl, tx] + hvals;
                    assert(spec_reads(spec_cycle_registers(), vals) =~= seq![
                        BusOp::Read(RegisterAddress::TempM, tm),
                        BusOp::Read(RegisterAddress::TempL, tl),
                        BusOp::Read(RegisterAddress::TempXl, tx),
                    ] + spec_reads(spec_humidity_registers(), hvals));
                    assert(self.log() =~= old(self).log() + spec_reads(
                        spec_cycle_registers(),
                        vals,
                    ));
                    assert(vals.len() < 8);
                }
                return Err(e);
            },
        };
        let ghost log2 = self.log();
        let ghost (hm, hl) = choose|hm: u8, hl: u8|
            log2 == log1 + seq![
                BusOp::Read(RegisterAddress::HumM, hm),
                BusOp::Read(RegisterAddress::HumL, hl),
            ] && adc_h.0 == spec_sample16(hm, hl);
        let adc_p = match self.get_adc_pressure() {
            Ok(v) => v,
            Err(e) => {
                proof {
                    let pvals = choose|pv: Seq<u8>|
                        pv.len() < 3 && self.log() == log2 + spec_reads(
                            spec_pressure_registers(),
                            pv,
                        );
                    let vals = seq![tm, tl, tx, hm, hl] + pvals;
                    assert(spec_reads(spec_cycle_registers(), vals) =~= seq![
                        BusOp::Read(RegisterAddress::TempM, tm),
                        BusOp::Read(RegisterAddress::TempL, tl),
                        BusOp::Read(RegisterAddress::TempXl, tx),
                        BusOp::Read(RegisterAddress::HumM, hm),
                        BusOp::Read(RegisterAddress::HumL, hl),
                    ] + spec_reads(spec_pressure_registers(), pvals));
                    assert(self.log() =~= old(self).log() + spec_reads(
                        spec_cycle_registers(),
                        vals,
                    ));
                    assert(vals.len() < 8);
                }
                return Err(e);
            },
        };
        let ghost (pm, pl, px) = choose|pm: u8, pl: u8, px: u8|
            self.log() == log2 + seq![
                BusOp::Read(RegisterAddress::PressM, pm),
                BusOp::Read(RegisterAddress::PressL, pl),
                BusOp::Read(RegisterAddress::PressXl, px),
            ] && adc_p.0 == spec_sample20(pm, pl, px);
        proof {
            assert(self.log() =~= old(self).log() + seq![
                BusOp::Read(RegisterAddress::TempM, tm),
                BusOp::Read(RegisterAddress::TempL, tl),
                BusOp::Read(RegisterAddress::TempXl, tx),
                BusOp::Read(RegisterAddress::HumM, hm),
                BusOp::Read(RegisterAddress::HumL, hl),
                BusOp::Read(RegisterAddress::PressM, pm),
                BusOp::Read(RegisterAddress::PressL, pl),
                BusOp::Read(RegisterAddress::PressXl, px),
            ]);
        }
        Ok((adc_t, adc_h, adc_p))
    }

    /// Read the 32 calibration bytes, one read per named calibration
    /// register in table order, and decode them into the coefficient
    /// profile.  A failure anywhere aborts the load: no partial profile.
    fn fetch_calibration(&mut self) -> (r: Bme280Result<Calibration>)
        ensures
            r matches Ok(c) ==> exists|vals: Seq<u8>|
                vals.len() == 32 && final(self).log() == old(self).log()
                    + spec_calibration_reads(vals) && c == spec_decode_calibration(vals),
            r is Err ==> exists|vals: Seq<u8>|
                vals.len() < 32 && final(self).log() == old(self).log()
                    + spec_calibration_reads(vals),
    {
        let mut bytes: Vec<u8> = Vec::new();
        let mut i: usize = 0;
        while i < 32
            invariant
                bytes@.len() == i,
                i <= 32,
                self.log() == old(self).log() + spec_calibration_reads(bytes@),
            decreases 32 - i,
        {
            let reg = RegisterAddress::calibration_register(i);
            match self.read_byte_data(reg) {
                Ok(v) => {
                    let ghost prev = bytes@;
                    bytes.push(v);
                    proof {
                        assert(spec_calibration_reads(bytes@) =~= spec_calibration_reads(
                            prev,
                        ).push(BusOp::Read(RegisterAddress::spec_calibration_register(i as int), v)));
                        assert(self.log() =~= old(self).log() + spec_calibration_reads(bytes@));
                    }
                },
                Err(e) => {
                    proof {
                        assert(bytes@.len() < 32 && self.log() == old(self).log()
                            + spec_calibration_reads(bytes@));
                    }
                    return Err(e);
                },
            }
            i = i + 1;
        }
        let c = decode_calibration(&bytes);
        proof {
            assert(bytes@.len() == 32 && self.log() == old(self).log() + spec_calibration_reads(
                bytes@,
            ) && c == spec_decode_calibration(bytes@));
        }
        Ok(c)
    }
}

/// The in-memory bus runs the whole register protocol, for tests.
impl Bme280Core for MemoryBus {
}

} // verus!
