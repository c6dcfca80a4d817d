use vstd::prelude::*;
use crate::error::Bme280Result;
use crate::error::Bme280Error;
use crate::registers::RegisterAddress;

verus! {

/// One successful bus transaction, as the driver's contracts see it.
#[derive(Copy, Clone, Debug, PartialEq, Eq, Structural)]
pub enum BusOp {
    /// A byte read from a register, with the byte that came back.
    Read(RegisterAddress, u8),
    /// A byte written to a register.
    Write(RegisterAddress, u8),
    /// A block read from a register, with the number of bytes asked for.
    ReadBlock(RegisterAddress, usize),
}

/// The injected bus capability: byte-level register access.
///
/// Every implementation carries a ghost log of the transactions that
/// completed, oldest first; a failed call leaves the log as it was and
/// surfaces the transport's error.  The driver's sequencing contracts are
/// all stated over this log.
pub trait I2c: Sized {
    /// The successful transactions so far, oldest first.  A transport
    /// outside the verifier's view keeps the default, the empty log, and
    /// its transactions go unmodelled.
    open spec fn log(&self) -> Seq<BusOp> {
        Seq::empty()
    }

    fn write_byte_data(&mut self, reg: RegisterAddress, data: u8) -> (r: Bme280Result<()>)
        ensures
            r is Ok ==> final(self).log() == old(self).log().push(BusOp::Write(reg, data)),
            r is Err ==> final(self).log() == old(self).log(),
    ;

    fn read_byte_data(&mut self, reg: RegisterAddress) -> (r: Bme280Result<u8>)
        ensures
            r matches Ok(v) ==> final(self).log() == old(self).log().push(BusOp::Read(reg, v)),
            r is Err ==> final(self).log() == old(self).log(),
    ;

    fn read_i2c_block_data(&mut self, reg: RegisterAddress, len: usize) -> (r: Bme280Result<
        Vec<u8>,
    >)
        ensures
            r matches Ok(v) ==> v@.len() == len && final(self).log() == old(self).log().push(
                BusOp::ReadBlock(reg, len),
            ),
            r is Err ==> final(self).log() == old(self).log(),
    ;
}

/// An in-memory register file implementing `I2c`: reads hand back the
/// stored byte, writes store theirs, and every transaction lands on the
/// log.  It backs the driver's tests, where the bytes put on the wire are
/// inspected through `ops`; `set_failing` makes it refuse every
/// transaction, and `set_failing_after` lets a chosen transaction be the
/// first to fail, the way a real transport fails mid-operation.
pub struct MemoryBus {
    regs: Vec<u8>,
    ops: Vec<BusOp>,
    fail_after: Option<usize>,
}

impl MemoryBus {
    /// The byte stored behind each register address.
    pub closed spec fn spec_regs(&self) -> Seq<u8> {
        self.regs@
    }

    /// One byte for each of the 256 possible register addresses.
    pub open spec fn wf(&self) -> bool {
        self.spec_regs().len() == 256
    }

    /// A bus with every register zero and an empty log.
    pub fn new() -> (b: MemoryBus)
        ensures
            b.wf(),
            b.log() == Seq::<BusOp>::empty(),
            forall|i: int| 0 <= i < 256 ==> b.spec_regs()[i] == 0,
    {
        let mut regs: Vec<u8> = Vec::new();
        let mut i: usize = 0;
        while i < 256
            invariant
                regs@.len() == i,
                i <= 256,
                forall|j: int| 0 <= j < i ==> regs@[j] == 0,
            decreases 256 - i,
        {
            regs.push(0);
            i = i + 1;
        }
        MemoryBus { regs, ops: Vec::new(), fail_after: None }
    }

    /// Store a byte behind a register without touching the log, the way a
    /// test lays out the device before driving it.
    pub fn load_register(&mut self, reg: RegisterAddress, value: u8)
        requires
            old(self).wf(),
        ensures
            final(self).wf(),
            final(self).log() == old(self).log(),
            final(self).spec_regs() == old(self).spec_regs().update(
                reg.spec_address() as int,
                value,
            ),
    {
        let a = reg.address();
        self.regs.set(a as usize, value);
    }

    /// Make every following transaction fail (or succeed again).
    pub fn set_failing(&mut self, failing: bool)
        ensures
            final(self).log() == old(self).log(),
            final(self).spec_regs() == old(self).spec_regs(),
            final(self).wf() == old(self).wf(),
    {
        self.fail_after = if failing {
            Some(0)
        } else {
            None
        };
    }

    /// Let the next `n` transactions succeed and every later one fail:
    /// the transport dies in the middle of an operation.
    pub fn set_failing_after(&mut self, n: usize)
        ensures
            final(self).log() == old(self).log(),
            final(self).spec_regs() == old(self).spec_regs(),
            final(self).wf() == old(self).wf(),
    {
        self.fail_after = Some(n);
    }

    /// Count one transaction against the failure switch; says whether
    /// this one fails.
    fn step_failure(&mut self) -> (failed: bool)
        ensures
            final(self).log() == old(self).log(),
            final(self).spec_regs() == old(self).spec_regs(),
            final(self).wf() == old(self).wf(),
    {
        match self.fail_after {
            Some(n) => {
                if n == 0 {
                    true
                } else {
                    self.fail_after = Some(n - 1);
                    false
                }
            },
            None => false,
        }
    }

    /// The transactions so far, for a test to inspect.
    pub fn ops(&self) -> (r: &Vec<BusOp>)
        ensures
            r@ == self.log(),
    {
        &self.ops
    }
}

impl I2c for MemoryBus {
    closed spec fn log(&self) -> Seq<BusOp> {
        self.ops@
    }

    fn write_byte_data(&mut self, reg: RegisterAddress, data: u8) -> (r: Bme280Result<()>) {
        if self.step_failure() {
            return Err(Bme280Error::I2cError("write refused".to_string()));
        }
        let a = reg.address() as usize;
        if a < self.regs.len() {
            self.regs.set(a, data);
        }
        self.ops.push(BusOp::Write(reg, data));
        Ok(())
    }

    fn read_byte_data(&mut self, reg: RegisterAddress) -> (r: Bme280Result<u8>) {
        if self.step_failure() {
            return Err(Bme280Error::I2cError("read refused".to_string()));
        }
        let a = reg.address() as usize;
        let v = if a < self.regs.len() {
            self.regs[a]
        } else {
            0
        };
        self.ops.push(BusOp::Read(reg, v));
        Ok(v)
    }

    fn read_i2c_block_data(&mut self, reg: RegisterAddress, len: usize) -> (r: Bme280Result<
        Vec<u8>,
    >) {
        if self.step_failure() {
            return Err(Bme280Error::I2cError("block read refused".to_string()));
        }
        let base = reg.address() as usize;
        let mut out: Vec<u8> = Vec::new();
        let mut i: usize = 0;
        while i < len
            invariant
                out@.len() == i,
                i <= len,
            decreases len - i,
        {
            let v = if base <= usize::MAX - i && base + i < self.regs.len() {
                self.regs[base + i]
            } else {
                0
            };
            out.push(v);
            i = i + 1;
        }
        self.ops.push(BusOp::ReadBlock(reg, len));
        Ok(out)
    }
}

} // verus!
