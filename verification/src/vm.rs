//! The execution engine: a register file, a memory unit and the control unit
//! that runs the fetch, decode and execute cycle over them.
//!
//! The engine does no input or output itself. An `OUT` hands the word to
//! print back to the caller, and an `IN` leaves the machine waiting until the
//! caller supplies the line that was typed.

pub mod fault;
pub mod ops;
pub mod instruction;
pub mod register_file;
pub mod mmu;
pub mod io;
pub mod supervisor;
pub mod debugger;

use vstd::prelude::*;
use crate::b91::{span, ModuleModel, ObjectModule};
use crate::vm::fault::Fault;
use crate::vm::instruction::{decode, AddressingMode, Instruction};
use crate::vm::io::{keyboard_value, parse_keyboard, Device};
use crate::vm::mmu::{MemoryModel, MMU};
use crate::vm::ops::Op;
use crate::vm::register_file::RegisterFile;
use crate::vm::supervisor::Service;

verus! {

/// Where a machine stands.
#[derive(Debug, PartialEq, Eq, Structural, Clone, Copy)]
pub enum Status {
    /// The next cycle will fetch an instruction.
    Running,
    /// An `IN` waits for a keyboard line; the word goes to the general
    /// register carried here.
    AwaitingInput(u8),
    /// A supervisor call stopped the machine.
    Halted,
    /// A run found the program counter past the frame pointer, the end of
    /// the code: the program ran off its end without a halt.
    RanOffEnd,
    /// A fatal condition ended the run.
    Faulted(Fault),
}

/// What one cycle reports: where the machine stands after it, and the word
/// that it hands to the display, if any.
#[derive(Debug, PartialEq, Eq, Clone, Copy)]
pub struct Step {
    pub status: Status,
    pub output: Option<u32>,
}

/// What a run reports: where the machine stands after it, and the words that
/// it handed to the display, in order.
#[derive(Debug, PartialEq, Eq)]
pub struct Run {
    pub status: Status,
    pub outputs: Vec<u32>,
}

/// The state of a machine.
pub struct MachineModel {
    pub registers: RegisterFile,
    pub memory: MemoryModel,
    pub status: Status,
}

impl MachineModel {
    /// Every address fits a word, and a pending input names a register.
    pub open spec fn wf(self) -> bool {
        &&& self.memory.cells.len() <= u32::MAX
        &&& self.status matches Status::AwaitingInput(register) ==> register < 8
    }
}

/// The address an instruction refers to: the index register plus the offset,
/// wrapping at 32 bits. Index register 0 contributes zero.
pub open spec fn effective_address(registers: RegisterFile, instruction: Instruction) -> u32 {
    registers.spec_get(instruction.ri).wrapping_add(instruction.addr as u32)
}

/// The operand of an instruction and the memory after fetching it: the
/// effective address itself, the word stored there, or the word stored at the
/// address stored there. An index register above 7 and an access out of
/// bounds are faults.
pub open spec fn operand(registers: RegisterFile, memory: MemoryModel, instruction: Instruction) -> (
    Result<u32, Fault>,
    MemoryModel,
) {
    let address = effective_address(registers, instruction);
    if instruction.ri >= 8 {
        (Err(Fault::InvalidRegister(instruction.ri)), memory)
    } else {
        match instruction.m {
            AddressingMode::Immediate => (Ok(address), memory),
            AddressingMode::Direct => memory.read(address as int),
            AddressingMode::Indirect => match memory.read(address as int) {
                (Ok(pointer), after) => after.read(pointer as int),
                failed => failed,
            },
        }
    }
}

/// The operation is one that the control unit executes.
pub open spec fn executable(opcode: Op) -> bool {
    match opcode {
        Op::NOP | Op::STORE | Op::LOAD | Op::IN | Op::OUT | Op::ADD | Op::SUB | Op::MUL | Op::DIV
        | Op::JUMP | Op::JZER | Op::SVC => true,
        _ => false,
    }
}

/// The instruction takes effect without its operand being fetched: a jump to
/// the register's value, a conditional jump that is not taken, and a store
/// with an immediate operand, which is a fault.
pub open spec fn skips_operand(registers: RegisterFile, instruction: Instruction) -> bool {
    match instruction.opcode {
        Op::JUMP => true,
        Op::JZER => registers.spec_get(instruction.rj) != 0,
        Op::STORE => instruction.m == AddressingMode::Immediate,
        _ => false,
    }
}

/// The machine goes on to the next cycle.
pub open spec fn proceed(registers: RegisterFile, memory: MemoryModel) -> (
    MachineModel,
    Option<u32>,
) {
    (MachineModel { registers, memory, status: Status::Running }, None)
}

/// The machine stops on a fault.
pub open spec fn stop(registers: RegisterFile, memory: MemoryModel, fault: Fault) -> (
    MachineModel,
    Option<u32>,
) {
    (MachineModel { registers, memory, status: Status::Faulted(fault) }, None)
}

/// The effect of an executable instruction whose destination register is in
/// range and whose operand is not to be fetched.
pub open spec fn apply_without_operand(
    registers: RegisterFile,
    memory: MemoryModel,
    instruction: Instruction,
) -> (MachineModel, Option<u32>) {
    match instruction.opcode {
        Op::JUMP => proceed(registers.with_pc(registers.spec_get(instruction.rj)), memory),
        Op::STORE => stop(registers, memory, Fault::InvalidOperand),
        _ => proceed(registers, memory),
    }
}

/// The effect of an executable instruction whose destination register is in
/// range, given its operand and the memory after the operand was fetched.
pub open spec fn apply(
    registers: RegisterFile,
    memory: MemoryModel,
    instruction: Instruction,
    value: u32,
) -> (MachineModel, Option<u32>) {
    let rj = instruction.rj;
    let old_value = registers.spec_get(rj);
    match instruction.opcode {
        Op::LOAD => proceed(registers.spec_set(rj, value), memory),
        Op::STORE => match memory.write(value as int, old_value) {
            (Ok(_), after) => proceed(registers, after),
            (Err(fault), after) => stop(registers, after, fault),
        },
        Op::ADD => proceed(registers.spec_set(rj, old_value.wrapping_add(value)), memory),
        Op::SUB => proceed(registers.spec_set(rj, old_value.wrapping_sub(value)), memory),
        Op::MUL => proceed(registers.spec_set(rj, old_value.wrapping_mul(value)), memory),
        Op::DIV => if value == 0 {
            stop(registers, memory, Fault::DivisionByZero)
        } else {
            proceed(registers.spec_set(rj, old_value / value), memory)
        },
        Op::JZER => proceed(registers.with_pc(value), memory),
        Op::IN => match Device::spec_from_u32(value) {
            Some(Device::Keyboard) => (
                MachineModel { registers, memory, status: Status::AwaitingInput(rj) },
                None,
            ),
            _ => stop(registers, memory, Fault::UnknownDevice(value)),
        },
        Op::OUT => match Device::spec_from_u32(value) {
            Some(Device::CRT) => (
                MachineModel { registers, memory, status: Status::Running },
                Some(old_value),
            ),
            _ => stop(registers, memory, Fault::UnknownDevice(value)),
        },
        Op::SVC => match Service::spec_from_u32(value) {
            Some(Service::Halt) => (
                MachineModel { registers, memory, status: Status::Halted },
                None,
            ),
            None => stop(registers, memory, Fault::UnsupportedService(value)),
        },
        _ => proceed(registers, memory),
    }
}

/// The state after one instruction is executed on the given registers and
/// memory, and the word it hands to the display, if any.
///
/// An operation outside the executable set is a fault. `NOP` changes
/// nothing. Otherwise a destination register above 7 is a fault; then the
/// operand is fetched, unless the instruction does without, and a fault in
/// fetching it ends the run; then the operation takes effect.
pub open spec fn execute_model(
    registers: RegisterFile,
    memory: MemoryModel,
    instruction: Instruction,
) -> (MachineModel, Option<u32>) {
    if !executable(instruction.opcode) {
        stop(registers, memory, Fault::UnsupportedOpcode(instruction.opcode))
    } else if instruction.opcode == Op::NOP {
        proceed(registers, memory)
    } else if instruction.rj >= 8 {
        stop(registers, memory, Fault::InvalidRegister(instruction.rj))
    } else if skips_operand(registers, instruction) {
        apply_without_operand(registers, memory, instruction)
    } else {
        match operand(registers, memory, instruction) {
            (Err(fault), after) => stop(registers, after, fault),
            (Ok(value), after) => apply(registers, after, instruction, value),
        }
    }
}

/// The state after one cycle, and the word it hands to the display, if any.
///
/// A machine that is not running stays as it is. A running machine reads the
/// word at the program counter and decodes it; a fault in either ends the run
/// with the program counter still at that word. Otherwise the program counter
/// moves on by one and the instruction is executed.
pub open spec fn tick_model(machine: MachineModel) -> (MachineModel, Option<u32>) {
    if machine.status != Status::Running {
        (machine, None)
    } else {
        match machine.memory.read(machine.registers.pc as int) {
            (Err(fault), after) => stop(machine.registers, after, fault),
            (Ok(word), after) => match decode(word) {
                Err(fault) => stop(machine.registers, after, fault),
                Ok(instruction) => execute_model(
                    machine.registers.with_pc((machine.registers.pc + 1) as u32),
                    after,
                    instruction,
                ),
            },
        }
    }
}

/// The state after a run of at most `budget` cycles, and the words handed to
/// the display on the way, in order.
///
/// The run ends when the machine is no longer running, when the budget is
/// used up, or when the program counter is past the frame pointer: then the
/// machine has run off the end of its code, and says so in its status.
pub open spec fn run_model(machine: MachineModel, budget: nat) -> (MachineModel, Seq<u32>)
    decreases budget,
{
    if machine.status != Status::Running {
        (machine, Seq::empty())
    } else if machine.registers.pc > machine.registers.fp {
        (MachineModel { status: Status::RanOffEnd, ..machine }, Seq::empty())
    } else if budget == 0 {
        (machine, Seq::empty())
    } else {
        let (next, output) = tick_model(machine);
        let (last, outputs) = run_model(next, (budget - 1) as nat);
        (
            last,
            match output {
                Some(word) => seq![word] + outputs,
                None => outputs,
            },
        )
    }
}

/// The state after a keyboard line is supplied, and whether it was taken. A
/// machine that waits for input and gets a number stores it in the register
/// that waits and runs on; any other line, and any other machine, changes
/// nothing.
pub open spec fn input_model(machine: MachineModel, line: Seq<u8>) -> (MachineModel, bool) {
    match (machine.status, keyboard_value(line)) {
        (Status::AwaitingInput(register), Some(value)) => (
            MachineModel {
                registers: machine.registers.spec_set(register, value),
                memory: machine.memory,
                status: Status::Running,
            },
            true,
        ),
        _ => (machine, false),
    }
}

/// Why a block cannot be placed in a memory of `size` cells, if it cannot:
/// it does not hold as many words as its offsets span, or it reaches past the
/// end of the memory.
pub open spec fn block_fault(start: usize, end: usize, words: Seq<u32>, size: nat) -> Option<
    Fault,
> {
    if words.len() != span(start as int, end as int) {
        Some(Fault::MalformedModule)
    } else if start + words.len() > size {
        Some(
            Fault::MemoryFault(
                if words.len() == 0 {
                    start
                } else {
                    end
                },
            ),
        )
    } else {
        None
    }
}

/// The state after an object module is loaded, or the fault that keeps it
/// out. Both blocks are checked, the code first, before anything is changed;
/// then the code and the data are placed at their offsets, the frame pointer
/// is set to the end of the code and the stack pointer to the end of the
/// data.
pub open spec fn load_model(machine: MachineModel, module: ModuleModel) -> Result<
    MachineModel,
    Fault,
> {
    let size = machine.memory.cells.len();
    match block_fault(module.code_start, module.code_end, module.code, size) {
        Some(fault) => Err(fault),
        None => match block_fault(module.data_start, module.data_end, module.data, size) {
            Some(fault) => Err(fault),
            None => Ok(
                MachineModel {
                    registers: RegisterFile {
                        fp: module.code_end as u32,
                        sp: module.data_end as u32,
                        ..machine.registers
                    },
                    memory: machine.memory.with_block(
                        module.code_start as int,
                        module.code,
                    ).with_block(module.data_start as int, module.data),
                    status: machine.status,
                },
            ),
        },
    }
}

/// A machine that is not running stays as it is under any number of cycles
/// and runs, and hands nothing to the display: a terminal status is reported
/// again and no instruction is executed again.
pub proof fn lemma_stopped_stays(machine: MachineModel, budget: nat)
    requires
        machine.status != Status::Running,
    ensures
        tick_model(machine) == (machine, None::<u32>),
        run_model(machine, budget) == (machine, Seq::<u32>::empty()),
{
}

/// An instruction that faults has no effect on the registers nor on the
/// cells of the memory.
pub proof fn lemma_fault_keeps_state(
    registers: RegisterFile,
    memory: MemoryModel,
    instruction: Instruction,
)
    ensures
        execute_model(registers, memory, instruction).0.status is Faulted ==> execute_model(
            registers,
            memory,
            instruction,
        ).0.registers == registers && execute_model(registers, memory, instruction).0.memory.cells
            == memory.cells,
{
}

/// No cycle changes the size of the memory, and a state that meets its
/// invariant is followed by one that does.
pub proof fn lemma_tick_keeps_size(machine: MachineModel)
    ensures
        tick_model(machine).0.memory.cells.len() == machine.memory.cells.len(),
        machine.wf() ==> tick_model(machine).0.wf(),
{
}

/// Something that runs a machine.
pub trait Hypervisor {
    /// The state that `run` may start from.
    spec fn ready(&self) -> bool;

    /// Runs at most `budget` cycles and reports where the machine stands
    /// and what it handed to the display.
    fn run(&mut self, budget: usize) -> (report: Run)
        requires
            old(self).ready(),
        ensures
            final(self).ready(),
    ;
}

/// Something that executes decoded instructions.
pub trait Control {
    /// The state that `execute` may start from.
    spec fn operable(&self) -> bool;

    /// Executes one instruction and returns the word handed to the display,
    /// if any.
    fn execute(&mut self, instruction: &Instruction) -> (output: Option<u32>)
        requires
            old(self).operable(),
        ensures
            final(self).operable(),
    ;
}

/// The machine: one register file and one memory unit, owned by the engine.
#[derive(Debug)]
pub struct Machine {
    registers: RegisterFile,
    mmu: MMU,
    status: Status,
}

impl View for Machine {
    type V = MachineModel;

    closed spec fn view(&self) -> MachineModel {
        MachineModel { registers: self.registers, memory: self.mmu@, status: self.status }
    }
}

impl Machine {
    /// The machine's invariant, which is that of its state.
    pub open spec fn wf(&self) -> bool {
        self@.wf()
    }

    /// A running machine with `memory_size` cells of memory, all cells and
    /// registers zero.
    pub fn new(memory_size: usize) -> (machine: Machine)
        requires
            memory_size <= u32::MAX,
        ensures
            machine.wf(),
            machine@ == (MachineModel {
                registers: RegisterFile::spec_new(),
                memory: MemoryModel {
                    cells: Seq::new(memory_size as nat, |i: int| 0u32),
                    mar: 0,
                    mbr: 0,
                },
                status: Status::Running,
            }),
    {
        let mmu = MMU::new(memory_size);
        let registers = RegisterFile::new();
        Machine { mmu, registers, status: Status::Running }
    }

    /// The registers.
    pub fn registers(&self) -> (registers: &RegisterFile)
        ensures
            *registers == self@.registers,
    {
        &self.registers
    }

    /// The memory unit.
    pub fn memory(&self) -> (unit: &MMU)
        ensures
            unit@ == self@.memory,
    {
        &self.mmu
    }

    /// Where the machine stands.
    pub fn status(&self) -> (status: Status)
        ensures
            status == self@.status,
    {
        self.status
    }

    /// Places the code and the data of an object module in memory, and sets
    /// the frame pointer to the end of the code and the stack pointer to the
    /// end of the data. A module that is malformed or does not fit leaves the
    /// machine untouched.
    pub fn load_object_module(&mut self, object_module: &ObjectModule) -> (loaded: Result<
        (),
        Fault,
    >)
        requires
            old(self).wf(),
        ensures
            final(self).wf(),
            match load_model(old(self)@, object_module@) {
                Ok(machine) => loaded is Ok && final(self)@ == machine,
                Err(fault) => loaded == Err::<(), Fault>(fault) && final(self)@ == old(self)@,
            },
    {
        let size: usize = self.mmu.limit() as usize;
        let code = &object_module.code;
        let data = &object_module.data;
        match check_block(code.start, code.end, code.instructions.as_slice(), size) {
            Some(fault) => {
                return Err(fault);
            },
            None => {},
        }
        match check_block(data.start, data.end, data.data.as_slice(), size) {
            Some(fault) => {
                return Err(fault);
            },
            None => {},
        }
        let _ = self.mmu.load(code.start, code.instructions.as_slice());
        let _ = self.mmu.load(data.start, data.data.as_slice());
        self.registers.fp = code.end as u32;
        self.registers.sp = data.end as u32;
        Ok(())
    }

    /// Fetches the operand of an instruction.
    pub fn fetch_value(&mut self, instruction: &Instruction) -> (value: Result<u32, Fault>)
        requires
            old(self).wf(),
        ensures
            final(self).wf(),
            final(self)@.registers == old(self)@.registers,
            final(self)@.status == old(self)@.status,
            (value, final(self)@.memory) == operand(
                old(self)@.registers,
                old(self)@.memory,
                *instruction,
            ),
    {
        let base: u32 = match self.registers.get(instruction.ri) {
            Ok(base) => base,
            Err(fault) => {
                return Err(fault);
            },
        };
        let address: u32 = base.wrapping_add(instruction.addr as u32);
        match instruction.m {
            AddressingMode::Immediate => Ok(address),
            AddressingMode::Direct => self.mmu.read(address as usize),
            AddressingMode::Indirect => match self.mmu.read(address as usize) {
                Ok(pointer) => self.mmu.read(pointer as usize),
                Err(fault) => Err(fault),
            },
        }
    }

    /// Executes a single cycle: fetch, decode, execute. A machine that is
    /// not running is left as it is and reports the status that it has.
    pub fn tick(&mut self) -> (step: Step)
        requires
            old(self).wf(),
        ensures
            final(self).wf(),
            (final(self)@, step.output) == tick_model(old(self)@),
            step.status == final(self)@.status,
    {
        match self.status {
            Status::Running => {},
            _ => {
                return Step { status: self.status, output: None };
            },
        }
        let pc: u32 = self.registers.pc;
        let output: Option<u32> = match self.mmu.read(pc as usize) {
            Err(fault) => {
                self.status = Status::Faulted(fault);
                None
            },
            Ok(word) => match Instruction::from_u32(word) {
                Err(fault) => {
                    self.status = Status::Faulted(fault);
                    None
                },
                Ok(instruction) => {
                    self.registers.pc = pc + 1;
                    self.execute(&instruction)
                },
            },
        };
        Step { status: self.status, output }
    }

    /// Supplies the line typed at the keyboard, without its line end, to a
    /// machine that waits for input. Returns whether the line was taken;
    /// after `false` the machine still waits, and the line is to be asked for
    /// again.
    pub fn supply_input(&mut self, line: &[u8]) -> (taken: bool)
        requires
            old(self).wf(),
        ensures
            final(self).wf(),
            (final(self)@, taken) == input_model(old(self)@, line@),
    {
        match self.status {
            Status::AwaitingInput(register) => match parse_keyboard(line) {
                Some(value) => {
                    let _ = self.registers.set(register, value);
                    self.status = Status::Running;
                    true
                },
                None => false,
            },
            _ => false,
        }
    }

    /// Gives an instruction its effect, from the value of its destination
    /// register and its operand.
    fn apply(&mut self, instruction: &Instruction, old_value: u32, value: u32) -> (output: Option<
        u32,
    >)
        requires
            old(self).wf(),
            instruction.rj < 8,
            old(self)@.status == Status::Running,
            old_value == old(self)@.registers.spec_get(instruction.rj),
        ensures
            final(self).wf(),
            (final(self)@, output) == apply(
                old(self)@.registers,
                old(self)@.memory,
                *instruction,
                value,
            ),
    {
        let rj: u8 = instruction.rj;
        match instruction.opcode {
            Op::LOAD => {
                let _ = self.registers.set(rj, value);
                None
            },
            Op::STORE => {
                match self.mmu.write(value as usize, old_value) {
                    Ok(_) => {},
                    Err(fault) => {
                        self.status = Status::Faulted(fault);
                    },
                }
                None
            },
            Op::ADD => {
                let _ = self.registers.set(rj, old_value.wrapping_add(value));
                None
            },
            Op::SUB => {
                let _ = self.registers.set(rj, old_value.wrapping_sub(value));
                None
            },
            Op::MUL => {
                let _ = self.registers.set(rj, old_value.wrapping_mul(value));
                None
            },
            Op::DIV => {
                if value == 0 {
                    self.status = Status::Faulted(Fault::DivisionByZero);
                } else {
                    let _ = self.registers.set(rj, old_value / value);
                }
                None
            },
            Op::JZER => {
                self.registers.pc = value;
                None
            },
            Op::IN => {
                match Device::from_u32(value) {
                    Some(Device::Keyboard) => {
                        self.status = Status::AwaitingInput(rj);
                    },
                    _ => {
                        self.status = Status::Faulted(Fault::UnknownDevice(value));
                    },
                }
                None
            },
            Op::OUT => match Device::from_u32(value) {
                Some(Device::CRT) => Some(old_value),
                _ => {
                    self.status = Status::Faulted(Fault::UnknownDevice(value));
                    None
                },
            },
            Op::SVC => {
                match Service::from_u32(value) {
                    Some(Service::Halt) => {
                        self.status = Status::Halted;
                    },
                    None => {
                        self.status = Status::Faulted(Fault::UnsupportedService(value));
                    },
                }
                None
            },
            _ => None,
        }
    }
}

/// Checks that a block can be placed in a memory of `size` cells.
fn check_block(start: usize, end: usize, words: &[u32], size: usize) -> (fault: Option<Fault>)
    ensures
        fault == block_fault(start, end, words@, size as nat),
{
    let spans = if end >= start {
        words.len() >= 1 && end - start == words.len() - 1
    } else {
        start - end == 1 && words.len() == 0
    };
    if !spans {
        Some(Fault::MalformedModule)
    } else if start > size || words.len() > size - start {
        Some(
            Fault::MemoryFault(
                if words.len() == 0 {
                    start
                } else {
                    end
                },
            ),
        )
    } else {
        None
    }
}

impl Control for Machine {
    open spec fn operable(&self) -> bool {
        self.wf()
    }

    /// Executes one instruction on a running machine: see `execute_model`.
    /// A machine that is not running is left as it is.
    fn execute(&mut self, instruction: &Instruction) -> (output: Option<u32>)
        ensures
            (final(self)@, output) == if old(self)@.status == Status::Running {
                execute_model(old(self)@.registers, old(self)@.memory, *instruction)
            } else {
                (old(self)@, None::<u32>)
            },
    {
        match self.status {
            Status::Running => {},
            _ => {
                return None;
            },
        }
        match instruction.opcode {
            Op::NOP => {
                return None;
            },
            Op::STORE | Op::LOAD | Op::IN | Op::OUT | Op::ADD | Op::SUB | Op::MUL | Op::DIV
            | Op::JUMP | Op::JZER | Op::SVC => {},
            _ => {
                self.status = Status::Faulted(Fault::UnsupportedOpcode(instruction.opcode));
                return None;
            },
        }
        let old_value: u32 = match self.registers.get(instruction.rj) {
            Ok(old_value) => old_value,
            Err(fault) => {
                self.status = Status::Faulted(fault);
                return None;
            },
        };
        match instruction.opcode {
            Op::JUMP => {
                self.registers.pc = old_value;
                return None;
            },
            Op::JZER => {
                if old_value != 0 {
                    return None;
                }
            },
            Op::STORE => {
                match instruction.m {
                    AddressingMode::Immediate => {
                        self.status = Status::Faulted(Fault::InvalidOperand);
                        return None;
                    },
                    _ => {},
                }
            },
            _ => {},
        }
        match self.fetch_value(instruction) {
            Err(fault) => {
                self.status = Status::Faulted(fault);
                None
            },
            Ok(value) => self.apply(instruction, old_value, value),
        }
    }
}

impl Hypervisor for Machine {
    open spec fn ready(&self) -> bool {
        self.wf()
    }

    /// Runs cycles until the machine is no longer running, the program
    /// counter is past the frame pointer, or `budget` cycles are done: see
    /// `run_model`.
    fn run(&mut self, budget: usize) -> (report: Run)
        ensures
            (final(self)@, report.outputs@) == run_model(old(self)@, budget as nat),
            report.status == final(self)@.status,
    {
        let mut outputs: Vec<u32> = Vec::new();
        let mut left: usize = budget;
        loop
            invariant
                self.wf(),
                run_model(old(self)@, budget as nat) == (
                    run_model(self@, left as nat).0,
                    outputs@ + run_model(self@, left as nat).1,
                ),
            ensures
                self.wf(),
                run_model(old(self)@, budget as nat) == (self@, outputs@),
            decreases left,
        {
            match self.status {
                Status::Running => {},
                _ => {
                    break ;
                },
            }
            if self.registers.pc > self.registers.fp {
                self.status = Status::RanOffEnd;
                break ;
            }
            if left == 0 {
                break ;
            }
            let output: Option<u32> = self.tick().output;
            match output {
                Some(word) => {
                    outputs.push(word);
                },
                None => {},
            }
            left -= 1;
        }
        Run { status: self.status, outputs }
    }
}

} // verus!
