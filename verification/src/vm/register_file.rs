//! The register file: eight general registers and four control registers.

use vstd::prelude::*;
use crate::vm::fault::Fault;

verus! {

/// Number of the register that serves as stack pointer.
pub const SP: u8 = 6;

/// Number of the register that serves as frame pointer.
pub const FP: u8 = 7;

/// The registers of the machine. The general registers are numbered 0 to 7;
/// number 6 is the stack pointer `sp` and number 7 the frame pointer `fp`.
///
/// Register 0 reads as zero through `get`, whatever was written to it: the
/// cell `r0` behind it is written by `set` and never seen by `get`.
#[derive(Debug, PartialEq, Eq, Structural, Clone, Copy)]
pub struct RegisterFile {
    pub r0: u32,
    pub r1: u32,
    pub r2: u32,
    pub r3: u32,
    pub r4: u32,
    pub r5: u32,
    /// Stack pointer, register 6.
    pub sp: u32,
    /// Frame pointer, register 7.
    pub fp: u32,
    /// Program counter.
    pub pc: u32,
    /// Instruction register.
    pub ir: u32,
    /// Temporary register.
    pub tr: u32,
    /// Status register.
    pub sr: u32,
}

impl RegisterFile {
    /// The file with every register zero.
    pub open spec fn spec_new() -> RegisterFile {
        RegisterFile {
            r0: 0,
            r1: 0,
            r2: 0,
            r3: 0,
            r4: 0,
            r5: 0,
            sp: 0,
            fp: 0,
            pc: 0,
            ir: 0,
            tr: 0,
            sr: 0,
        }
    }

    /// What reading general register `src` gives, for `src` from 0 to 7.
    pub open spec fn spec_get(self, src: u8) -> u32
        recommends
            src < 8,
    {
        match src {
            1 => self.r1,
            2 => self.r2,
            3 => self.r3,
            4 => self.r4,
            5 => self.r5,
            6 => self.sp,
            7 => self.fp,
            _ => 0,
        }
    }

    /// The file after `value` is written to general register `dst`, for `dst`
    /// from 0 to 7.
    pub open spec fn spec_set(self, dst: u8, value: u32) -> RegisterFile
        recommends
            dst < 8,
    {
        match dst {
            0 => RegisterFile { r0: value, ..self },
            1 => RegisterFile { r1: value, ..self },
            2 => RegisterFile { r2: value, ..self },
            3 => RegisterFile { r3: value, ..self },
            4 => RegisterFile { r4: value, ..self },
            5 => RegisterFile { r5: value, ..self },
            6 => RegisterFile { sp: value, ..self },
            7 => RegisterFile { fp: value, ..self },
            _ => self,
        }
    }

    /// The file with the program counter replaced.
    pub open spec fn with_pc(self, pc: u32) -> RegisterFile {
        RegisterFile { pc, ..self }
    }

    /// The file with every register zero.
    pub fn new() -> (registers: RegisterFile)
        ensures
            registers == RegisterFile::spec_new(),
    {
        RegisterFile {
            r0: 0,
            r1: 0,
            r2: 0,
            r3: 0,
            r4: 0,
            r5: 0,
            sp: 0,
            fp: 0,
            pc: 0,
            ir: 0,
            tr: 0,
            sr: 0,
        }
    }

    /// Writes a general register. Fails with `InvalidRegister`, and changes
    /// nothing, when `dst` is above 7.
    pub fn set(&mut self, dst: u8, value: u32) -> (done: Result<(), Fault>)
        ensures
            dst < 8 ==> done == Ok::<(), Fault>(()) && *final(self) == old(self).spec_set(dst, value),
            dst >= 8 ==> done == Err::<(), Fault>(Fault::InvalidRegister(dst)) && *final(self) == *old(
                self,
            ),
    {
        match dst {
            0 => {
                self.r0 = value;
            },
            1 => {
                self.r1 = value;
            },
            2 => {
                self.r2 = value;
            },
            3 => {
                self.r3 = value;
            },
            4 => {
                self.r4 = value;
            },
            5 => {
                self.r5 = value;
            },
            6 => {
                self.sp = value;
            },
            7 => {
                self.fp = value;
            },
            _ => {
                return Err(Fault::InvalidRegister(dst));
            },
        }
        Ok(())
    }

    /// Reads a general register; register 0 reads as zero. Fails with
    /// `InvalidRegister` when `src` is above 7.
    pub fn get(&self, src: u8) -> (value: Result<u32, Fault>)
        ensures
            src < 8 ==> value == Ok::<u32, Fault>(self.spec_get(src)),
            src >= 8 ==> value == Err::<u32, Fault>(Fault::InvalidRegister(src)),
    {
        match src {
            0 => Ok(0),
            1 => Ok(self.r1),
            2 => Ok(self.r2),
            3 => Ok(self.r3),
            4 => Ok(self.r4),
            5 => Ok(self.r5),
            6 => Ok(self.sp),
            7 => Ok(self.fp),
            _ => Err(Fault::InvalidRegister(src)),
        }
    }
}

/// Register 0 reads as zero whatever was written, to it or to another
/// register; each of the registers 1 to 7 reads back the value last written
/// to it, and a write to one register leaves the others as they read before.
pub proof fn lemma_get_after_set(registers: RegisterFile, dst: u8, value: u32, src: u8)
    requires
        dst < 8,
        src < 8,
    ensures
        registers.spec_set(dst, value).spec_get(src) == if src == 0 {
            0
        } else if src == dst {
            value
        } else {
            registers.spec_get(src)
        },
{
}

} // verus!
