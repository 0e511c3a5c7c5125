use ttk91::b91::parser::parse;
use ttk91::b91::{CodeBlock, DataBlock, ObjectModule, SymbolTable};
use ttk91::vm::fault::Fault;
use ttk91::vm::instruction::{AddressingMode, Instruction};
use ttk91::vm::io::{parse_keyboard, Device};
use ttk91::vm::ops::Op;
use ttk91::vm::supervisor::Service;
use ttk91::vm::{Control, Hypervisor, Machine, Run, Status, Step};

const IMMEDIATE: AddressingMode = AddressingMode::Immediate;
const DIRECT: AddressingMode = AddressingMode::Direct;
const INDIRECT: AddressingMode = AddressingMode::Indirect;

fn word(opcode: Op, rj: u8, m: AddressingMode, ri: u8, addr: u16) -> u32 {
    Instruction { opcode, rj, m, ri, addr }.to_u32()
}

/// A machine of 32 cells with the code at 0 and the data right after it.
fn machine_with(code: Vec<u32>, data: Vec<u32>) -> Machine {
    let code_len = code.len();
    let module = ObjectModule {
        code: CodeBlock { start: 0, end: code_len - 1, instructions: code },
        data: DataBlock { start: code_len, end: code_len + data.len() - 1, data },
        symbol_table: SymbolTable::new(),
    };
    let mut machine = Machine::new(32);
    assert_eq!(machine.load_object_module(&module), Ok(()));
    machine
}

fn register(machine: &Machine, number: u8) -> u32 {
    machine.registers().get(number).unwrap()
}

#[test]
fn load_immediate_and_halt() {
    let text = "___b91___\n___code___\n0 1\n35651589\n1891631115\n___data___\n2 2\n0\n___symboltable___\nhalt 11\n___end___\n";
    let module = parse(text.as_bytes()).unwrap();
    let mut machine = Machine::new(100);
    assert_eq!(machine.load_object_module(&module), Ok(()));
    assert_eq!(machine.registers().fp, 1);
    assert_eq!(machine.registers().sp, 2);
    assert_eq!(machine.status(), Status::Running);
    let report = machine.run(1000);
    assert_eq!(report, Run { status: Status::Halted, outputs: vec![] });
    assert_eq!(register(&machine, 1), 5);
    assert_eq!(machine.status(), Status::Halted);
    assert_eq!(machine.registers().pc, 2);
}

#[test]
fn add_direct_operand() {
    let mut machine = machine_with(
        vec![word(Op::LOAD, 1, IMMEDIATE, 0, 3), word(Op::ADD, 1, DIRECT, 0, 2)],
        vec![4],
    );
    assert_eq!(machine.tick(), Step { status: Status::Running, output: None });
    assert_eq!(register(&machine, 1), 3);
    assert_eq!(machine.tick(), Step { status: Status::Running, output: None });
    assert_eq!(register(&machine, 1), 7);
    assert_eq!(machine.status(), Status::Running);
    assert_eq!(machine.registers().pc, 2);
    assert_eq!(machine.memory().mar(), 2);
    assert_eq!(machine.memory().mbr(), 4);
}

#[test]
fn division_by_zero_faults() {
    let mut machine = machine_with(
        vec![word(Op::LOAD, 1, IMMEDIATE, 0, 9), word(Op::DIV, 1, IMMEDIATE, 0, 0)],
        vec![0],
    );
    assert_eq!(machine.tick().output, None);
    assert_eq!(
        machine.tick(),
        Step { status: Status::Faulted(Fault::DivisionByZero), output: None }
    );
    assert_eq!(machine.status(), Status::Faulted(Fault::DivisionByZero));
    assert_eq!(register(&machine, 1), 9);
}

#[test]
fn keyboard_input_is_asked_again() {
    let mut machine = machine_with(
        vec![word(Op::IN, 1, IMMEDIATE, 0, 1), word(Op::SVC, 6, IMMEDIATE, 0, 11)],
        vec![0],
    );
    assert_eq!(machine.tick().output, None);
    assert_eq!(machine.status(), Status::AwaitingInput(1));
    // a cycle does nothing while the machine waits
    assert_eq!(machine.tick().output, None);
    assert_eq!(machine.run(10).outputs, Vec::<u32>::new());
    assert_eq!(machine.status(), Status::AwaitingInput(1));
    assert_eq!(machine.registers().pc, 1);
    assert!(!machine.supply_input(b"abc"));
    assert_eq!(machine.status(), Status::AwaitingInput(1));
    assert_eq!(register(&machine, 1), 0);
    assert!(machine.supply_input(b"42"));
    assert_eq!(machine.status(), Status::Running);
    assert_eq!(register(&machine, 1), 42);
    // nothing waits any more
    assert!(!machine.supply_input(b"43"));
    assert_eq!(register(&machine, 1), 42);
    assert_eq!(machine.run(10).outputs, Vec::<u32>::new());
    assert_eq!(machine.status(), Status::Halted);
}

#[test]
fn halted_machine_stays_halted() {
    let mut machine = machine_with(
        vec![word(Op::SVC, 6, IMMEDIATE, 0, 11), word(Op::LOAD, 1, IMMEDIATE, 0, 5)],
        vec![0],
    );
    assert_eq!(machine.tick().output, None);
    assert_eq!(machine.status(), Status::Halted);
    let registers = *machine.registers();
    for _ in 0..3 {
        assert_eq!(machine.tick(), Step { status: Status::Halted, output: None });
        assert_eq!(machine.run(5), Run { status: Status::Halted, outputs: vec![] });
        assert_eq!(machine.status(), Status::Halted);
        assert_eq!(*machine.registers(), registers);
    }
    assert_eq!(register(&machine, 1), 0);
    let load = Instruction { opcode: Op::LOAD, rj: 1, m: IMMEDIATE, ri: 0, addr: 5 };
    assert_eq!(machine.execute(&load), None);
    assert_eq!(register(&machine, 1), 0);
}

#[test]
fn faulted_machine_stays_faulted() {
    let mut machine = machine_with(vec![word(Op::MOD, 1, IMMEDIATE, 0, 2)], vec![0]);
    assert_eq!(machine.tick().output, None);
    assert_eq!(machine.status(), Status::Faulted(Fault::UnsupportedOpcode(Op::MOD)));
    assert_eq!(machine.registers().pc, 1);
    assert_eq!(machine.tick().output, None);
    assert_eq!(machine.status(), Status::Faulted(Fault::UnsupportedOpcode(Op::MOD)));
    assert_eq!(machine.registers().pc, 1);
}

#[test]
fn output_goes_to_the_display() {
    let mut machine = machine_with(
        vec![
            word(Op::LOAD, 2, IMMEDIATE, 0, 77),
            word(Op::OUT, 2, IMMEDIATE, 0, 0),
            word(Op::ADD, 2, IMMEDIATE, 0, 1),
            word(Op::OUT, 2, IMMEDIATE, 0, 0),
            word(Op::SVC, 6, IMMEDIATE, 0, 11),
        ],
        vec![0],
    );
    assert_eq!(machine.tick().output, None);
    assert_eq!(machine.tick().output, Some(77));
    assert_eq!(machine.status(), Status::Running);
    assert_eq!(machine.run(100).outputs, vec![78]);
    assert_eq!(machine.status(), Status::Halted);
}

#[test]
fn run_collects_outputs_in_order() {
    let mut machine = machine_with(
        vec![
            word(Op::LOAD, 1, IMMEDIATE, 0, 1),
            word(Op::OUT, 1, IMMEDIATE, 0, 0),
            word(Op::MUL, 1, IMMEDIATE, 0, 3),
            word(Op::OUT, 1, IMMEDIATE, 0, 0),
            word(Op::SUB, 1, IMMEDIATE, 0, 4),
            word(Op::OUT, 1, IMMEDIATE, 0, 0),
            word(Op::SVC, 6, IMMEDIATE, 0, 11),
        ],
        vec![0],
    );
    assert_eq!(machine.run(1000).outputs, vec![1, 3, 4294967295]);
    assert_eq!(machine.status(), Status::Halted);
}

#[test]
fn run_stops_when_the_budget_is_used() {
    // an endless loop: JUMP R0 goes to address 0
    let mut machine = machine_with(
        vec![word(Op::OUT, 0, IMMEDIATE, 0, 0), word(Op::JUMP, 0, IMMEDIATE, 0, 0)],
        vec![0],
    );
    assert_eq!(machine.run(5).outputs, vec![0, 0, 0]);
    assert_eq!(machine.status(), Status::Running);
    assert_eq!(machine.registers().pc, 1);
    assert_eq!(machine.run(0).outputs, Vec::<u32>::new());
    assert_eq!(machine.registers().pc, 1);
    assert_eq!(machine.run(1).outputs, Vec::<u32>::new());
    assert_eq!(machine.registers().pc, 0);
}

#[test]
fn run_off_the_end_of_the_code() {
    let mut machine = machine_with(
        vec![word(Op::LOAD, 1, IMMEDIATE, 0, 5), word(Op::NOP, 0, IMMEDIATE, 0, 0)],
        vec![0],
    );
    assert_eq!(machine.run(100).outputs, Vec::<u32>::new());
    assert_eq!(machine.status(), Status::RanOffEnd);
    assert_eq!(machine.registers().pc, 2);
    assert_eq!(register(&machine, 1), 5);
    assert_eq!(machine.tick().output, None);
    assert_eq!(machine.registers().pc, 2);
    assert_eq!(machine.run(100).outputs, Vec::<u32>::new());
    assert_eq!(machine.status(), Status::RanOffEnd);
}

#[test]
fn store_writes_to_the_operand_address() {
    // data: cell 4 holds 6, cell 5 holds 0, cell 6 holds 0
    let mut machine = machine_with(
        vec![
            word(Op::LOAD, 1, IMMEDIATE, 0, 123),
            word(Op::STORE, 1, DIRECT, 0, 4),
            word(Op::LOAD, 2, DIRECT, 0, 6),
            word(Op::SVC, 6, IMMEDIATE, 0, 11),
        ],
        vec![6, 0, 0],
    );
    assert_eq!(machine.run(100).outputs, Vec::<u32>::new());
    assert_eq!(machine.status(), Status::Halted);
    assert_eq!(machine.memory().peek(6), Some(123));
    assert_eq!(register(&machine, 2), 123);
}

#[test]
fn store_with_immediate_operand_faults() {
    let mut machine = machine_with(
        vec![word(Op::LOAD, 1, IMMEDIATE, 0, 123), word(Op::STORE, 1, IMMEDIATE, 0, 3)],
        vec![0, 0],
    );
    let before: Vec<u32> = machine.memory().as_slice().to_vec();
    assert_eq!(machine.run(100).outputs, Vec::<u32>::new());
    assert_eq!(machine.status(), Status::Faulted(Fault::InvalidOperand));
    assert_eq!(machine.memory().as_slice(), &before[..]);
}

#[test]
fn indirect_operand_reads_twice() {
    // cell 2 holds 3, cell 3 holds 99
    let mut machine = machine_with(
        vec![word(Op::LOAD, 1, INDIRECT, 0, 2), word(Op::SVC, 6, IMMEDIATE, 0, 11)],
        vec![3, 99],
    );
    assert_eq!(machine.tick().output, None);
    assert_eq!(register(&machine, 1), 99);
    assert_eq!(machine.memory().mar(), 3);
    assert_eq!(machine.memory().mbr(), 99);
}

#[test]
fn index_register_is_added_to_the_offset() {
    // cell 4 holds 50
    let mut machine = machine_with(
        vec![
            word(Op::LOAD, 2, IMMEDIATE, 0, 1),
            word(Op::LOAD, 1, DIRECT, 2, 3),
            word(Op::LOAD, 3, IMMEDIATE, 2, 10),
        ],
        vec![0, 50],
    );
    assert_eq!(machine.run(100).outputs, Vec::<u32>::new());
    assert_eq!(register(&machine, 1), 50);
    assert_eq!(register(&machine, 3), 11);
    assert_eq!(machine.status(), Status::RanOffEnd);
}

#[test]
fn effective_address_wraps() {
    // R2 := 0 - 1, then R1 := R2 + 2
    let mut machine = machine_with(
        vec![word(Op::SUB, 2, IMMEDIATE, 0, 1), word(Op::LOAD, 1, IMMEDIATE, 2, 2)],
        vec![0],
    );
    assert_eq!(machine.tick().output, None);
    assert_eq!(register(&machine, 2), u32::MAX);
    assert_eq!(machine.tick().output, None);
    assert_eq!(register(&machine, 1), 1);
}

#[test]
fn arithmetic_wraps_and_divides() {
    let mut machine = machine_with(
        vec![
            word(Op::LOAD, 1, IMMEDIATE, 0, 0xffff),
            word(Op::MUL, 1, IMMEDIATE, 0, 0xffff),
            word(Op::MUL, 1, IMMEDIATE, 0, 0xffff),
            word(Op::LOAD, 2, IMMEDIATE, 0, 100),
            word(Op::DIV, 2, IMMEDIATE, 0, 7),
            word(Op::LOAD, 3, DIRECT, 0, 9),
            word(Op::ADD, 3, IMMEDIATE, 0, 2),
            word(Op::SVC, 6, IMMEDIATE, 0, 11),
        ],
        vec![0, u32::MAX],
    );
    assert_eq!(machine.run(100).outputs, Vec::<u32>::new());
    assert_eq!(machine.status(), Status::Halted);
    assert_eq!(register(&machine, 1), 0xfffe_0001u32.wrapping_mul(0xffff));
    assert_eq!(register(&machine, 2), 14);
    assert_eq!(register(&machine, 3), 1);
}

#[test]
fn conditional_jump() {
    let mut machine = machine_with(
        vec![
            word(Op::LOAD, 1, IMMEDIATE, 0, 1),
            word(Op::JZER, 1, IMMEDIATE, 0, 5),
            word(Op::LOAD, 1, IMMEDIATE, 0, 0),
            word(Op::JZER, 1, IMMEDIATE, 0, 5),
            word(Op::LOAD, 2, IMMEDIATE, 0, 66),
            word(Op::SVC, 6, IMMEDIATE, 0, 11),
        ],
        vec![0],
    );
    assert_eq!(machine.tick().output, None);
    assert_eq!(machine.tick().output, None);
    assert_eq!(machine.registers().pc, 2);
    assert_eq!(machine.tick().output, None);
    assert_eq!(machine.tick().output, None);
    assert_eq!(machine.registers().pc, 5);
    assert_eq!(machine.run(10).outputs, Vec::<u32>::new());
    assert_eq!(machine.status(), Status::Halted);
    assert_eq!(register(&machine, 2), 0);
}

#[test]
fn jump_goes_to_the_register_value() {
    let mut machine = machine_with(
        vec![
            word(Op::LOAD, 4, IMMEDIATE, 0, 3),
            word(Op::JUMP, 4, IMMEDIATE, 0, 0),
            word(Op::LOAD, 1, IMMEDIATE, 0, 1),
            word(Op::SVC, 6, IMMEDIATE, 0, 11),
        ],
        vec![0],
    );
    assert_eq!(machine.tick().output, None);
    assert_eq!(machine.tick().output, None);
    assert_eq!(machine.registers().pc, 3);
    assert_eq!(machine.run(10).outputs, Vec::<u32>::new());
    assert_eq!(machine.status(), Status::Halted);
    assert_eq!(register(&machine, 1), 0);
}

#[test]
fn register_zero_is_zero_as_base_and_as_source() {
    let mut machine = machine_with(
        vec![
            word(Op::LOAD, 0, IMMEDIATE, 0, 9),
            word(Op::LOAD, 1, IMMEDIATE, 0, 4),
            word(Op::ADD, 1, IMMEDIATE, 0, 0),
            word(Op::OUT, 0, IMMEDIATE, 0, 0),
        ],
        vec![0],
    );
    assert_eq!(machine.run(10).outputs, vec![0]);
    assert_eq!(machine.registers().r0, 9);
    assert_eq!(register(&machine, 0), 0);
    assert_eq!(register(&machine, 1), 4);
}

#[test]
fn memory_fault_in_operand() {
    let mut machine = machine_with(
        vec![word(Op::LOAD, 1, IMMEDIATE, 0, 8), word(Op::LOAD, 1, DIRECT, 0, 32)],
        vec![0],
    );
    assert_eq!(machine.run(10).outputs, Vec::<u32>::new());
    assert_eq!(machine.status(), Status::Faulted(Fault::MemoryFault(32)));
    assert_eq!(register(&machine, 1), 8);
}

#[test]
fn memory_fault_in_fetch() {
    let mut machine = machine_with(
        vec![word(Op::LOAD, 1, IMMEDIATE, 0, 40), word(Op::JUMP, 1, IMMEDIATE, 0, 0)],
        vec![0],
    );
    assert_eq!(machine.tick().output, None);
    assert_eq!(machine.tick().output, None);
    assert_eq!(machine.registers().pc, 40);
    assert_eq!(machine.tick().output, None);
    assert_eq!(machine.status(), Status::Faulted(Fault::MemoryFault(40)));
    assert_eq!(machine.registers().pc, 40);
}

#[test]
fn decode_faults_while_running() {
    let mut machine = machine_with(vec![0x0500_0000], vec![0]);
    assert_eq!(machine.tick().output, None);
    assert_eq!(machine.status(), Status::Faulted(Fault::InvalidOpcode(5)));
    assert_eq!(machine.registers().pc, 0);
    let mut machine = machine_with(vec![(0x02 << 24) | (3 << 19)], vec![0]);
    assert_eq!(machine.tick().output, None);
    assert_eq!(machine.status(), Status::Faulted(Fault::InvalidAddressingMode));
}

#[test]
fn unknown_devices_and_services() {
    let mut machine = machine_with(vec![word(Op::IN, 1, IMMEDIATE, 0, 0)], vec![0]);
    assert_eq!(machine.tick().output, None);
    assert_eq!(machine.status(), Status::Faulted(Fault::UnknownDevice(0)));
    let mut machine = machine_with(vec![word(Op::IN, 1, IMMEDIATE, 0, 6)], vec![0]);
    assert_eq!(machine.tick().output, None);
    assert_eq!(machine.status(), Status::Faulted(Fault::UnknownDevice(6)));
    let mut machine = machine_with(vec![word(Op::OUT, 1, IMMEDIATE, 0, 1)], vec![0]);
    assert_eq!(machine.tick().output, None);
    assert_eq!(machine.status(), Status::Faulted(Fault::UnknownDevice(1)));
    let mut machine = machine_with(vec![word(Op::SVC, 6, IMMEDIATE, 0, 12)], vec![0]);
    assert_eq!(machine.tick().output, None);
    assert_eq!(machine.status(), Status::Faulted(Fault::UnsupportedService(12)));
}

#[test]
fn device_number_is_an_effective_value() {
    // the device number is read from memory: cell 1 holds 0, the display
    let mut machine = machine_with(vec![word(Op::OUT, 0, DIRECT, 0, 1)], vec![0]);
    assert_eq!(machine.tick().output, Some(0));
    assert_eq!(machine.status(), Status::Running);
}

#[test]
fn execute_checks_register_numbers() {
    let mut machine = Machine::new(4);
    let bad_rj = Instruction { opcode: Op::LOAD, rj: 8, m: IMMEDIATE, ri: 0, addr: 1 };
    assert_eq!(machine.execute(&bad_rj), None);
    assert_eq!(machine.status(), Status::Faulted(Fault::InvalidRegister(8)));
    let mut machine = Machine::new(4);
    let bad_ri = Instruction { opcode: Op::LOAD, rj: 1, m: IMMEDIATE, ri: 9, addr: 1 };
    assert_eq!(machine.execute(&bad_ri), None);
    assert_eq!(machine.status(), Status::Faulted(Fault::InvalidRegister(9)));
    let mut machine = Machine::new(4);
    let fine = Instruction { opcode: Op::LOAD, rj: 7, m: IMMEDIATE, ri: 0, addr: 1 };
    assert_eq!(machine.execute(&fine), None);
    assert_eq!(machine.status(), Status::Running);
    assert_eq!(machine.registers().fp, 1);
}

#[test]
fn fetch_value_by_mode() {
    let mut machine = machine_with(vec![0], vec![2, 3]);
    let immediate = Instruction { opcode: Op::LOAD, rj: 1, m: IMMEDIATE, ri: 0, addr: 1 };
    let direct = Instruction { opcode: Op::LOAD, rj: 1, m: DIRECT, ri: 0, addr: 1 };
    let indirect = Instruction { opcode: Op::LOAD, rj: 1, m: INDIRECT, ri: 0, addr: 1 };
    let outside = Instruction { opcode: Op::LOAD, rj: 1, m: INDIRECT, ri: 0, addr: 99 };
    assert_eq!(machine.fetch_value(&immediate), Ok(1));
    assert_eq!(machine.fetch_value(&direct), Ok(2));
    assert_eq!(machine.fetch_value(&indirect), Ok(3));
    assert_eq!(machine.fetch_value(&outside), Err(Fault::MemoryFault(99)));
    assert_eq!(*machine.registers(), {
        let mut fresh = *Machine::new(1).registers();
        fresh.fp = 0;
        fresh.sp = 2;
        fresh
    });
}

#[test]
fn loading_checks_the_module_first() {
    let mut machine = Machine::new(4);
    let too_long = ObjectModule {
        code: CodeBlock { start: 0, end: 1, instructions: vec![1, 2] },
        data: DataBlock { start: 2, end: 4, data: vec![3, 4, 5] },
        symbol_table: SymbolTable::new(),
    };
    assert_eq!(machine.load_object_module(&too_long), Err(Fault::MemoryFault(4)));
    assert_eq!(machine.memory().as_slice(), &[0, 0, 0, 0]);
    assert_eq!(machine.registers().fp, 0);
    let malformed = ObjectModule {
        code: CodeBlock { start: 0, end: 1, instructions: vec![1] },
        data: DataBlock { start: 2, end: 2, data: vec![3] },
        symbol_table: SymbolTable::new(),
    };
    assert_eq!(machine.load_object_module(&malformed), Err(Fault::MalformedModule));
    assert_eq!(machine.memory().as_slice(), &[0, 0, 0, 0]);
    let fits = ObjectModule {
        code: CodeBlock { start: 0, end: 1, instructions: vec![1, 2] },
        data: DataBlock { start: 2, end: 3, data: vec![3, 4] },
        symbol_table: SymbolTable::new(),
    };
    assert_eq!(machine.load_object_module(&fits), Ok(()));
    assert_eq!(machine.memory().as_slice(), &[1, 2, 3, 4]);
    assert_eq!(machine.registers().fp, 1);
    assert_eq!(machine.registers().sp, 3);
    let no_data = ObjectModule {
        code: CodeBlock { start: 0, end: 0, instructions: vec![9] },
        data: DataBlock { start: 1, end: 0, data: vec![] },
        symbol_table: SymbolTable::new(),
    };
    assert_eq!(machine.load_object_module(&no_data), Ok(()));
    assert_eq!(machine.memory().as_slice(), &[9, 2, 3, 4]);
    assert_eq!(machine.registers().sp, 0);
}

#[test]
fn devices_services_and_keyboard_lines() {
    assert_eq!(Device::from_u32(0), Some(Device::CRT));
    assert_eq!(Device::from_u32(1), Some(Device::Keyboard));
    assert_eq!(Device::from_u32(2), None);
    assert_eq!(Service::from_u32(11), Some(Service::Halt));
    assert_eq!(Service::from_u32(0), None);
    assert_eq!(parse_keyboard(b"42"), Some(42));
    assert_eq!(parse_keyboard(b"abc"), None);
    assert_eq!(parse_keyboard(b""), None);
    assert_eq!(parse_keyboard(b"4294967296"), None);
}
