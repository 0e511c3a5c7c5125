//! The core of a line-oriented debugger: it reads a command from a line and
//! says what the answer to it is. Asking for the line and showing the answer
//! are left to the caller.

use vstd::prelude::*;
use vstd::slice::{slice_subrange, slice_to_vec};
use vstd::string::StringSliceAdditionalSpecFns;
use crate::b91::{bytes_equal, SymbolTable};
use crate::vm::fault::Fault;
use crate::vm::instruction::{decode, Instruction};
use crate::vm::register_file::RegisterFile;
use crate::vm::{input_model, tick_model, Machine, MachineModel, Step};

verus! {

/// A command of the debugger.
#[derive(Debug, PartialEq, Eq)]
pub enum Command {
    /// Execute the current instruction.
    Next,
    /// Leave the debugger.
    Exit,
    /// Show the registers.
    Regs,
    /// Show the instruction at the program counter.
    Ins,
    /// Show the symbol table.
    Syms,
    /// Show the list of commands.
    Help,
    /// Show the word at the address of the symbol named here.
    Var(Vec<u8>),
}

/// What a command holds.
pub enum CommandModel {
    Next,
    Exit,
    Regs,
    Ins,
    Syms,
    Help,
    Var(Seq<u8>),
}

impl View for Command {
    type V = CommandModel;

    open spec fn view(&self) -> CommandModel {
        match self {
            Command::Next => CommandModel::Next,
            Command::Exit => CommandModel::Exit,
            Command::Regs => CommandModel::Regs,
            Command::Ins => CommandModel::Ins,
            Command::Syms => CommandModel::Syms,
            Command::Help => CommandModel::Help,
            Command::Var(name) => CommandModel::Var(name@),
        }
    }
}

/// The answer to a command, for the caller to show.
#[derive(Debug, PartialEq, Eq, Clone, Copy)]
pub enum Reply {
    /// A cycle was run, with this report.
    Stepped(Step),
    /// The session is over.
    Exit,
    /// The registers as they stand.
    Registers(RegisterFile),
    /// The instruction at the program counter, or why there is none.
    Instruction(Result<Instruction, Fault>),
    /// The symbol table is to be shown.
    Symbols,
    /// The address of the symbol asked for, and the word there if the
    /// address is in the memory.
    Value(usize, Option<u32>),
    /// The symbol asked for is not defined.
    UnknownSymbol,
    /// The list of commands is to be shown.
    Help,
}

/// A blank, a tab, a line feed, a vertical tab, a form feed or a carriage
/// return.
pub open spec fn is_blank(byte: u8) -> bool {
    byte == 32 || (9 <= byte && byte <= 13)
}

/// The number of bytes from `from` on that are blank, if `blank` is set, or
/// that are not, if it is not, up to the first of the other kind.
pub open spec fn run_of(text: Seq<u8>, from: int, blank: bool) -> nat
    decreases text.len() - from,
{
    if from < 0 || from >= text.len() || is_blank(text[from]) != blank {
        0
    } else {
        1 + run_of(text, from + 1, blank)
    }
}

/// Where the first word at or after `from` begins.
pub open spec fn word_start(text: Seq<u8>, from: int) -> int {
    from + run_of(text, from, true)
}

/// Where the first word at or after `from` ends.
pub open spec fn word_end(text: Seq<u8>, from: int) -> int {
    word_start(text, from) + run_of(text, word_start(text, from), false)
}

/// The first word at or after `from`; empty if there is none.
pub open spec fn word_after(text: Seq<u8>, from: int) -> Seq<u8> {
    text.subrange(word_start(text, from), word_end(text, from))
}

/// The word is one of the names of the command that steps.
pub open spec fn names_next(word: Seq<u8>) -> bool {
    word == "continue".spec_bytes() || word == "c".spec_bytes() || word == "next".spec_bytes()
        || word == "n".spec_bytes()
}

/// The word is one of the names of the command that leaves.
pub open spec fn names_exit(word: Seq<u8>) -> bool {
    word == "exit".spec_bytes() || word == "quit".spec_bytes() || word == "q".spec_bytes()
}

/// The word is one of the names of the command that shows a symbol's value.
pub open spec fn names_var(word: Seq<u8>) -> bool {
    word == "var".spec_bytes() || word == "v".spec_bytes()
}

/// The word is one of the names of the command that shows the registers.
pub open spec fn names_regs(word: Seq<u8>) -> bool {
    word == "registers".spec_bytes() || word == "regs".spec_bytes() || word == "reg".spec_bytes()
        || word == "r".spec_bytes()
}

/// The word is one of the names of the command that shows the instruction.
pub open spec fn names_ins(word: Seq<u8>) -> bool {
    word == "instruction".spec_bytes() || word == "ins".spec_bytes() || word == "i".spec_bytes()
}

/// The word is one of the names of the command that shows the symbols.
pub open spec fn names_syms(word: Seq<u8>) -> bool {
    word == "symbols".spec_bytes() || word == "syms".spec_bytes() || word == "sym".spec_bytes()
        || word == "s".spec_bytes()
}

/// The word is the name of the command that shows the list of commands.
pub open spec fn names_help(word: Seq<u8>) -> bool {
    word == "help".spec_bytes()
}

/// The command that a line holds: its first word names the command and its
/// second word, if the command takes one, is the argument. What follows is
/// not read. A line without a word, an unknown name, and a command without
/// the argument that it needs hold no command.
pub open spec fn command_of(line: Seq<u8>) -> Option<CommandModel> {
    let name = word_after(line, 0);
    let argument = word_after(line, word_end(line, 0));
    if names_next(name) {
        Some(CommandModel::Next)
    } else if names_exit(name) {
        Some(CommandModel::Exit)
    } else if names_var(name) {
        if argument.len() > 0 {
            Some(CommandModel::Var(argument))
        } else {
            None
        }
    } else if names_regs(name) {
        Some(CommandModel::Regs)
    } else if names_ins(name) {
        Some(CommandModel::Ins)
    } else if names_syms(name) {
        Some(CommandModel::Syms)
    } else if names_help(name) {
        Some(CommandModel::Help)
    } else {
        None
    }
}

/// What an optional command holds.
pub open spec fn command_view(command: Option<Command>) -> Option<CommandModel> {
    match command {
        Some(command) => Some(command@),
        None => None,
    }
}

/// The instruction at the program counter, or why there is none.
pub open spec fn current_instruction(machine: MachineModel) -> Result<Instruction, Fault> {
    if machine.memory.in_bounds(machine.registers.pc as int) {
        decode(machine.memory.cells[machine.registers.pc as int])
    } else {
        Err(Fault::MemoryFault(machine.registers.pc as usize))
    }
}

/// The state after a command, and the answer to it. Only the command that
/// steps changes the machine: it runs one cycle.
pub open spec fn respond_model(
    machine: MachineModel,
    symbols: Map<Seq<u8>, usize>,
    command: CommandModel,
) -> (MachineModel, Reply) {
    match command {
        CommandModel::Next => (
            tick_model(machine).0,
            Reply::Stepped(
                Step { status: tick_model(machine).0.status, output: tick_model(machine).1 },
            ),
        ),
        CommandModel::Exit => (machine, Reply::Exit),
        CommandModel::Regs => (machine, Reply::Registers(machine.registers)),
        CommandModel::Ins => (machine, Reply::Instruction(current_instruction(machine))),
        CommandModel::Syms => (machine, Reply::Symbols),
        CommandModel::Help => (machine, Reply::Help),
        CommandModel::Var(name) => if symbols.dom().contains(name) {
            (
                machine,
                Reply::Value(
                    symbols[name],
                    if machine.memory.in_bounds(symbols[name] as int) {
                        Some(machine.memory.cells[symbols[name] as int])
                    } else {
                        None
                    },
                ),
            )
        } else {
            (machine, Reply::UnknownSymbol)
        },
    }
}

/// Whether a byte is blank.
pub fn blank(byte: u8) -> (is: bool)
    ensures
        is == is_blank(byte),
{
    byte == 32 || (9 <= byte && byte <= 13)
}

/// Passes over the blank bytes from `from` on, if `blanks` is set, or over
/// those that are not blank, if it is not.
fn pass(text: &[u8], from: usize, blanks: bool) -> (end: usize)
    requires
        from <= text@.len(),
    ensures
        end == from + run_of(text@, from as int, blanks),
        from <= end <= text@.len(),
{
    let mut i: usize = from;
    while i < text.len() && blank(text[i]) == blanks
        invariant
            from <= i <= text@.len(),
            from + run_of(text@, from as int, blanks) == i + run_of(text@, i as int, blanks),
        decreases text@.len() - i,
    {
        i += 1;
    }
    i
}

/// Reads a command from a line.
pub fn parse_command(line: &[u8]) -> (command: Option<Command>)
    ensures
        command_view(command) == command_of(line@),
{
    let name_start: usize = pass(line, 0, true);
    let name_end: usize = pass(line, name_start, false);
    let name = slice_subrange(line, name_start, name_end);
    let argument_start: usize = pass(line, name_end, true);
    let argument_end: usize = pass(line, argument_start, false);
    let argument = slice_subrange(line, argument_start, argument_end);
    if bytes_equal(name, "continue".as_bytes()) || bytes_equal(name, "c".as_bytes()) || bytes_equal(
        name,
        "next".as_bytes(),
    ) || bytes_equal(name, "n".as_bytes()) {
        Some(Command::Next)
    } else if bytes_equal(name, "exit".as_bytes()) || bytes_equal(name, "quit".as_bytes())
        || bytes_equal(name, "q".as_bytes()) {
        Some(Command::Exit)
    } else if bytes_equal(name, "var".as_bytes()) || bytes_equal(name, "v".as_bytes()) {
        if argument.len() > 0 {
            Some(Command::Var(slice_to_vec(argument)))
        } else {
            None
        }
    } else if bytes_equal(name, "registers".as_bytes()) || bytes_equal(name, "regs".as_bytes())
        || bytes_equal(name, "reg".as_bytes()) || bytes_equal(name, "r".as_bytes()) {
        Some(Command::Regs)
    } else if bytes_equal(name, "instruction".as_bytes()) || bytes_equal(name, "ins".as_bytes())
        || bytes_equal(name, "i".as_bytes()) {
        Some(Command::Ins)
    } else if bytes_equal(name, "symbols".as_bytes()) || bytes_equal(name, "syms".as_bytes())
        || bytes_equal(name, "sym".as_bytes()) || bytes_equal(name, "s".as_bytes()) {
        Some(Command::Syms)
    } else if bytes_equal(name, "help".as_bytes()) {
        Some(Command::Help)
    } else {
        None
    }
}

/// A debugging session over one machine and the symbol table of the program
/// that it holds.
#[derive(Debug)]
pub struct Debugger {
    machine: Machine,
    symbol_table: SymbolTable,
}

impl Debugger {
    /// The state of the machine under the debugger.
    pub closed spec fn machine_model(&self) -> MachineModel {
        self.machine@
    }

    /// The symbols that the debugger knows.
    pub closed spec fn symbols(&self) -> Map<Seq<u8>, usize> {
        self.symbol_table@
    }

    /// The session's invariant: the machine and the symbol table meet
    /// theirs.
    pub closed spec fn wf(&self) -> bool {
        self.machine.wf() && self.symbol_table.wf()
    }

    /// A session over the given machine and symbols.
    pub fn new(machine: Machine, symbol_table: SymbolTable) -> (debugger: Debugger)
        requires
            machine.wf(),
            symbol_table.wf(),
        ensures
            debugger.wf(),
            debugger.machine_model() == machine@,
            debugger.symbols() == symbol_table@,
    {
        Debugger { machine, symbol_table }
    }

    /// The machine under the debugger.
    pub fn machine(&self) -> (machine: &Machine)
        requires
            self.wf(),
        ensures
            machine.wf(),
            machine@ == self.machine_model(),
    {
        &self.machine
    }

    /// The symbol table.
    pub fn symbol_table(&self) -> (table: &SymbolTable)
        requires
            self.wf(),
        ensures
            table.wf(),
            table@ == self.symbols(),
    {
        &self.symbol_table
    }

    /// Carries out a command and returns the answer to it.
    pub fn respond(&mut self, command: &Command) -> (reply: Reply)
        requires
            old(self).wf(),
        ensures
            final(self).wf(),
            final(self).symbols() == old(self).symbols(),
            (final(self).machine_model(), reply) == respond_model(
                old(self).machine_model(),
                old(self).symbols(),
                command@,
            ),
    {
        match command {
            Command::Next => Reply::Stepped(self.machine.tick()),
            Command::Exit => Reply::Exit,
            Command::Regs => Reply::Registers(*self.machine.registers()),
            Command::Ins => {
                let pc: u32 = self.machine.registers().pc;
                match self.machine.memory().peek(pc as usize) {
                    Some(word) => Reply::Instruction(Instruction::from_u32(word)),
                    None => Reply::Instruction(Err(Fault::MemoryFault(pc as usize))),
                }
            },
            Command::Syms => Reply::Symbols,
            Command::Help => Reply::Help,
            Command::Var(name) => match self.symbol_table.get(name.as_slice()) {
                Some(address) => Reply::Value(address, self.machine.memory().peek(address)),
                None => Reply::UnknownSymbol,
            },
        }
    }

    /// Supplies a keyboard line to the machine: see `Machine::supply_input`.
    pub fn supply_input(&mut self, line: &[u8]) -> (taken: bool)
        requires
            old(self).wf(),
        ensures
            final(self).wf(),
            final(self).symbols() == old(self).symbols(),
            (final(self).machine_model(), taken) == input_model(old(self).machine_model(), line@),
    {
        self.machine.supply_input(line)
    }
}

} // verus!
