//! The instruction table: what each opcode byte means.
//!
//! Both the disassembler and the executor read an instruction's length and
//! meaning from `lookup`, so the two always agree on where the next
//! instruction starts.

use vstd::prelude::*;

verus! {

/// An 8-bit operand: one of the seven registers, or `M`, the memory byte that HL addresses.
#[derive(Clone, Copy, Debug, PartialEq, Eq, Structural)]
pub enum Register {
    B,
    C,
    D,
    E,
    H,
    L,
    M,
    A,
}

/// A 16-bit operand of LXI, DAD, INX, DCX, STAX and LDAX.
#[derive(Clone, Copy, Debug, PartialEq, Eq, Structural)]
pub enum RegisterPair {
    BC,
    DE,
    HL,
    SP,
}

/// A 16-bit operand of PUSH and POP; `PSW` is the accumulator with the flag byte.
#[derive(Clone, Copy, Debug, PartialEq, Eq, Structural)]
pub enum StackPair {
    BC,
    DE,
    HL,
    PSW,
}

/// The condition of a conditional jump, call or return.
#[derive(Clone, Copy, Debug, PartialEq, Eq, Structural)]
pub enum Condition {
    NotZero,
    Zero,
    NoCarry,
    Carry,
    ParityOdd,
    ParityEven,
    Plus,
    Minus,
}

/// The eight accumulator operations.
#[derive(Clone, Copy, Debug, PartialEq, Eq, Structural)]
pub enum AluOp {
    Add,
    AddWithCarry,
    Subtract,
    SubtractWithBorrow,
    And,
    Xor,
    Or,
    Compare,
}

/// What an instruction does, with the operands that its opcode byte encodes.
#[derive(Clone, Copy, Debug, PartialEq, Eq, Structural)]
pub enum Operation {
    Nop,
    Lxi(RegisterPair),
    Stax(RegisterPair),
    Ldax(RegisterPair),
    Shld,
    Lhld,
    Sta,
    Lda,
    Inx(RegisterPair),
    Dcx(RegisterPair),
    Inr(Register),
    Dcr(Register),
    Mvi(Register),
    Dad(RegisterPair),
    Rlc,
    Rrc,
    Ral,
    Rar,
    Daa,
    Cma,
    Stc,
    Cmc,
    Mov(Register, Register),
    Hlt,
    Alu(AluOp, Register),
    AluImm(AluOp),
    Jmp,
    JmpIf(Condition),
    Call,
    CallIf(Condition),
    Ret,
    RetIf(Condition),
    Rst(u8),
    Pchl,
    Push(StackPair),
    Pop(StackPair),
    Xthl,
    Sphl,
    Xchg,
    In,
    Out,
    Ei,
    Di,
    /// The byte is no documented 8080 instruction.
    Undefined,
}

/// One row of the instruction table.
#[derive(Clone, Copy, Debug, PartialEq, Eq)]
pub struct InstructionDescriptor {
    pub opcode: u8,
    pub mnemonic: &'static str,
    /// Bytes that follow the opcode: 0, 1 or 2.
    pub operand_length: u8,
    pub operation: Operation,
}

pub open spec fn register_of(code: u8) -> Register {
    if code == 0 {
        Register::B
    } else if code == 1 {
        Register::C
    } else if code == 2 {
        Register::D
    } else if code == 3 {
        Register::E
    } else if code == 4 {
        Register::H
    } else if code == 5 {
        Register::L
    } else if code == 6 {
        Register::M
    } else {
        Register::A
    }
}

pub open spec fn pair_of(code: u8) -> RegisterPair {
    if code == 0 {
        RegisterPair::BC
    } else if code == 1 {
        RegisterPair::DE
    } else if code == 2 {
        RegisterPair::HL
    } else {
        RegisterPair::SP
    }
}

pub open spec fn stack_pair_of(code: u8) -> StackPair {
    if code == 0 {
        StackPair::BC
    } else if code == 1 {
        StackPair::DE
    } else if code == 2 {
        StackPair::HL
    } else {
        StackPair::PSW
    }
}

pub open spec fn condition_of(code: u8) -> Condition {
    if code == 0 {
        Condition::NotZero
    } else if code == 1 {
        Condition::Zero
    } else if code == 2 {
        Condition::NoCarry
    } else if code == 3 {
        Condition::Carry
    } else if code == 4 {
        Condition::ParityOdd
    } else if code == 5 {
        Condition::ParityEven
    } else if code == 6 {
        Condition::Plus
    } else {
        Condition::Minus
    }
}

pub open spec fn alu_op_of(code: u8) -> AluOp {
    if code == 0 {
        AluOp::Add
    } else if code == 1 {
        AluOp::AddWithCarry
    } else if code == 2 {
        AluOp::Subtract
    } else if code == 3 {
        AluOp::SubtractWithBorrow
    } else if code == 4 {
        AluOp::And
    } else if code == 5 {
        AluOp::Xor
    } else if code == 6 {
        AluOp::Or
    } else {
        AluOp::Compare
    }
}

/// Opcodes `00 yyy zzz`: loads, stores, 16-bit arithmetic, increments and rotates.
pub open spec fn low_operation(y: u8, z: u8) -> Operation {
    if z == 0 {
        if y == 0 {
            Operation::Nop
        } else {
            Operation::Undefined
        }
    } else if z == 1 {
        if y % 2 == 0 {
            Operation::Lxi(pair_of(y / 2))
        } else {
            Operation::Dad(pair_of(y / 2))
        }
    } else if z == 2 {
        if y == 0 {
            Operation::Stax(RegisterPair::BC)
        } else if y == 1 {
            Operation::Ldax(RegisterPair::BC)
        } else if y == 2 {
            Operation::Stax(RegisterPair::DE)
        } else if y == 3 {
            Operation::Ldax(RegisterPair::DE)
        } else if y == 4 {
            Operation::Shld
        } else if y == 5 {
            Operation::Lhld
        } else if y == 6 {
            Operation::Sta
        } else {
            Operation::Lda
        }
    } else if z == 3 {
        if y % 2 == 0 {
            Operation::Inx(pair_of(y / 2))
        } else {
            Operation::Dcx(pair_of(y / 2))
        }
    } else if z == 4 {
        Operation::Inr(register_of(y))
    } else if z == 5 {
        Operation::Dcr(register_of(y))
    } else if z == 6 {
        Operation::Mvi(register_of(y))
    } else if y == 0 {
        Operation::Rlc
    } else if y == 1 {
        Operation::Rrc
    } else if y == 2 {
        Operation::Ral
    } else if y == 3 {
        Operation::Rar
    } else if y == 4 {
        Operation::Daa
    } else if y == 5 {
        Operation::Cma
    } else if y == 6 {
        Operation::Stc
    } else {
        Operation::Cmc
    }
}

/// Opcodes `11 yyy zzz`: branches, the stack, immediate arithmetic, ports and interrupts.
pub open spec fn high_operation(y: u8, z: u8) -> Operation {
    if z == 0 {
        Operation::RetIf(condition_of(y))
    } else if z == 1 {
        if y % 2 == 0 {
            Operation::Pop(stack_pair_of(y / 2))
        } else if y == 1 {
            Operation::Ret
        } else if y == 3 {
            Operation::Undefined
        } else if y == 5 {
            Operation::Pchl
        } else {
            Operation::Sphl
        }
    } else if z == 2 {
        Operation::JmpIf(condition_of(y))
    } else if z == 3 {
        if y == 0 {
            Operation::Jmp
        } else if y == 1 {
            Operation::Undefined
        } else if y == 2 {
            Operation::Out
        } else if y == 3 {
            Operation::In
        } else if y == 4 {
            Operation::Xthl
        } else if y == 5 {
            Operation::Xchg
        } else if y == 6 {
            Operation::Di
        } else {
            Operation::Ei
        }
    } else if z == 4 {
        Operation::CallIf(condition_of(y))
    } else if z == 5 {
        if y % 2 == 0 {
            Operation::Push(stack_pair_of(y / 2))
        } else if y == 1 {
            Operation::Call
        } else {
            Operation::Undefined
        }
    } else if z == 6 {
        Operation::AluImm(alu_op_of(y))
    } else {
        Operation::Rst(y)
    }
}

/// The operation that an opcode byte `xx yyy zzz` encodes, read off its three bit fields.
pub open spec fn operation_of(opcode: u8) -> Operation {
    let x = opcode / 64;
    let y = (opcode / 8) % 8;
    let z = opcode % 8;
    if x == 0 {
        low_operation(y, z)
    } else if x == 1 {
        if opcode == 0x76 {
            Operation::Hlt
        } else {
            Operation::Mov(register_of(y), register_of(z))
        }
    } else if x == 2 {
        Operation::Alu(alu_op_of(y), register_of(z))
    } else {
        high_operation(y, z)
    }
}

/// Bytes that follow the opcode of an instruction with this operation.
pub open spec fn operand_length_of(operation: Operation) -> u8 {
    match operation {
        Operation::Lxi(_)
        | Operation::Shld
        | Operation::Lhld
        | Operation::Sta
        | Operation::Lda
        | Operation::Jmp
        | Operation::JmpIf(_)
        | Operation::Call
        | Operation::CallIf(_) => 2,
        Operation::Mvi(_) | Operation::AluImm(_) | Operation::In | Operation::Out => 1,
        _ => 0,
    }
}

/// The three-byte opcodes of the 8080 manual: LXI, SHLD, LHLD, STA, LDA, the
/// jumps and the calls.
pub open spec fn is_three_byte_opcode(opcode: u8) -> bool {
    ||| opcode == 0x01 || opcode == 0x11 || opcode == 0x21 || opcode == 0x31
    ||| opcode == 0x22 || opcode == 0x2a || opcode == 0x32 || opcode == 0x3a
    ||| opcode == 0xc3 || opcode == 0xc2 || opcode == 0xca || opcode == 0xd2 || opcode == 0xda
    ||| opcode == 0xe2 || opcode == 0xea || opcode == 0xf2 || opcode == 0xfa
    ||| opcode == 0xcd || opcode == 0xc4 || opcode == 0xcc || opcode == 0xd4 || opcode == 0xdc
    ||| opcode == 0xe4 || opcode == 0xec || opcode == 0xf4 || opcode == 0xfc
}

/// The two-byte opcodes of the 8080 manual: MVI, the immediate accumulator
/// operations, IN and OUT.
pub open spec fn is_two_byte_opcode(opcode: u8) -> bool {
    ||| opcode == 0x06 || opcode == 0x0e || opcode == 0x16 || opcode == 0x1e
    ||| opcode == 0x26 || opcode == 0x2e || opcode == 0x36 || opcode == 0x3e
    ||| opcode == 0xc6 || opcode == 0xce || opcode == 0xd6 || opcode == 0xde
    ||| opcode == 0xe6 || opcode == 0xee || opcode == 0xf6 || opcode == 0xfe
    ||| opcode == 0xd3 || opcode == 0xdb
}

/// Total length in bytes of the instruction that starts with `opcode`, as the
/// 8080 manual lists it. A byte that is no documented instruction counts as one byte.
pub open spec fn documented_length(opcode: u8) -> int {
    if is_three_byte_opcode(opcode) {
        3
    } else if is_two_byte_opcode(opcode) {
        2
    } else {
        1
    }
}

/// The bytes that the manual leaves undefined.
pub open spec fn is_undocumented_opcode(opcode: u8) -> bool {
    ||| opcode == 0x08 || opcode == 0x10 || opcode == 0x18 || opcode == 0x20
    ||| opcode == 0x28 || opcode == 0x30 || opcode == 0x38
    ||| opcode == 0xcb || opcode == 0xd9 || opcode == 0xdd || opcode == 0xed || opcode == 0xfd
}

pub open spec fn alu_mnemonic(op: AluOp) -> Seq<char> {
    match op {
        AluOp::Add => "ADD"@,
        AluOp::AddWithCarry => "ADC"@,
        AluOp::Subtract => "SUB"@,
        AluOp::SubtractWithBorrow => "SBB"@,
        AluOp::And => "ANA"@,
        AluOp::Xor => "XRA"@,
        AluOp::Or => "ORA"@,
        AluOp::Compare => "CMP"@,
    }
}

pub open spec fn alu_immediate_mnemonic(op: AluOp) -> Seq<char> {
    match op {
        AluOp::Add => "ADI"@,
        AluOp::AddWithCarry => "ACI"@,
        AluOp::Subtract => "SUI"@,
        AluOp::SubtractWithBorrow => "SBI"@,
        AluOp::And => "ANI"@,
        AluOp::Xor => "XRI"@,
        AluOp::Or => "ORI"@,
        AluOp::Compare => "CPI"@,
    }
}

pub open spec fn jump_mnemonic(condition: Condition) -> Seq<char> {
    match condition {
        Condition::NotZero => "JNZ"@,
        Condition::Zero => "JZ"@,
        Condition::NoCarry => "JNC"@,
        Condition::Carry => "JC"@,
        Condition::ParityOdd => "JPO"@,
        Condition::ParityEven => "JPE"@,
        Condition::Plus => "JP"@,
        Condition::Minus => "JM"@,
    }
}

pub open spec fn call_mnemonic(condition: Condition) -> Seq<char> {
    match condition {
        Condition::NotZero => "CNZ"@,
        Condition::Zero => "CZ"@,
        Condition::NoCarry => "CNC"@,
        Condition::Carry => "CC"@,
        Condition::ParityOdd => "CPO"@,
        Condition::ParityEven => "CPE"@,
        Condition::Plus => "CP"@,
        Condition::Minus => "CM"@,
    }
}

pub open spec fn return_mnemonic(condition: Condition) -> Seq<char> {
    match condition {
        Condition::NotZero => "RNZ"@,
        Condition::Zero => "RZ"@,
        Condition::NoCarry => "RNC"@,
        Condition::Carry => "RC"@,
        Condition::ParityOdd => "RPO"@,
        Condition::ParityEven => "RPE"@,
        Condition::Plus => "RP"@,
        Condition::Minus => "RM"@,
    }
}

/// The canonical name of an operation.
pub open spec fn mnemonic_of(operation: Operation) -> Seq<char> {
    match operation {
        Operation::Nop => "NOP"@,
        Operation::Lxi(_) => "LXI"@,
        Operation::Stax(_) => "STAX"@,
        Operation::Ldax(_) => "LDAX"@,
        Operation::Shld => "SHLD"@,
        Operation::Lhld => "LHLD"@,
        Operation::Sta => "STA"@,
        Operation::Lda => "LDA"@,
        Operation::Inx(_) => "INX"@,
        Operation::Dcx(_) => "DCX"@,
        Operation::Inr(_) => "INR"@,
        Operation::Dcr(_) => "DCR"@,
        Operation::Mvi(_) => "MVI"@,
        Operation::Dad(_) => "DAD"@,
        Operation::Rlc => "RLC"@,
        Operation::Rrc => "RRC"@,
        Operation::Ral => "RAL"@,
        Operation::Rar => "RAR"@,
        Operation::Daa => "DAA"@,
        Operation::Cma => "CMA"@,
        Operation::Stc => "STC"@,
        Operation::Cmc => "CMC"@,
        Operation::Mov(_, _) => "MOV"@,
        Operation::Hlt => "HLT"@,
        Operation::Alu(op, _) => alu_mnemonic(op),
        Operation::AluImm(op) => alu_immediate_mnemonic(op),
        Operation::Jmp => "JMP"@,
        Operation::JmpIf(condition) => jump_mnemonic(condition),
        Operation::Call => "CALL"@,
        Operation::CallIf(condition) => call_mnemonic(condition),
        Operation::Ret => "RET"@,
        Operation::RetIf(condition) => return_mnemonic(condition),
        Operation::Rst(_) => "RST"@,
        Operation::Pchl => "PCHL"@,
        Operation::Push(_) => "PUSH"@,
        Operation::Pop(_) => "POP"@,
        Operation::Xthl => "XTHL"@,
        Operation::Sphl => "SPHL"@,
        Operation::Xchg => "XCHG"@,
        Operation::In => "IN"@,
        Operation::Out => "OUT"@,
        Operation::Ei => "EI"@,
        Operation::Di => "DI"@,
        Operation::Undefined => "Other"@,
    }
}

impl AluOp {
    /// The mnemonic of the register form of the operation.
    pub fn mnemonic(self) -> (name: &'static str)
        ensures
            name@ == alu_mnemonic(self),
    {
        match self {
            AluOp::Add => "ADD",
            AluOp::AddWithCarry => "ADC",
            AluOp::Subtract => "SUB",
            AluOp::SubtractWithBorrow => "SBB",
            AluOp::And => "ANA",
            AluOp::Xor => "XRA",
            AluOp::Or => "ORA",
            AluOp::Compare => "CMP",
        }
    }

    /// The mnemonic of the immediate form of the operation.
    pub fn immediate_mnemonic(self) -> (name: &'static str)
        ensures
            name@ == alu_immediate_mnemonic(self),
    {
        match self {
            AluOp::Add => "ADI",
            AluOp::AddWithCarry => "ACI",
            AluOp::Subtract => "SUI",
            AluOp::SubtractWithBorrow => "SBI",
            AluOp::And => "ANI",
            AluOp::Xor => "XRI",
            AluOp::Or => "ORI",
            AluOp::Compare => "CPI",
        }
    }
}

impl Condition {
    pub fn jump_mnemonic(self) -> (name: &'static str)
        ensures
            name@ == jump_mnemonic(self),
    {
        match self {
            Condition::NotZero => "JNZ",
            Condition::Zero => "JZ",
            Condition::NoCarry => "JNC",
            Condition::Carry => "JC",
            Condition::ParityOdd => "JPO",
            Condition::ParityEven => "JPE",
            Condition::Plus => "JP",
            Condition::Minus => "JM",
        }
    }

    pub fn call_mnemonic(self) -> (name: &'static str)
        ensures
            name@ == call_mnemonic(self),
    {
        match self {
            Condition::NotZero => "CNZ",
            Condition::Zero => "CZ",
            Condition::NoCarry => "CNC",
            Condition::Carry => "CC",
            Condition::ParityOdd => "CPO",
            Condition::ParityEven => "CPE",
            Condition::Plus => "CP",
            Condition::Minus => "CM",
        }
    }

    pub fn return_mnemonic(self) -> (name: &'static str)
        ensures
            name@ == return_mnemonic(self),
    {
        match self {
            Condition::NotZero => "RNZ",
            Condition::Zero => "RZ",
            Condition::NoCarry => "RNC",
            Condition::Carry => "RC",
            Condition::ParityOdd => "RPO",
            Condition::ParityEven => "RPE",
            Condition::Plus => "RP",
            Condition::Minus => "RM",
        }
    }
}

impl Operation {
    /// The canonical name of the operation.
    pub fn mnemonic(self) -> (name: &'static str)
        ensures
            name@ == mnemonic_of(self),
    {
        match self {
            Operation::Nop => "NOP",
            Operation::Lxi(_) => "LXI",
            Operation::Stax(_) => "STAX",
            Operation::Ldax(_) => "LDAX",
            Operation::Shld => "SHLD",
            Operation::Lhld => "LHLD",
            Operation::Sta => "STA",
            Operation::Lda => "LDA",
            Operation::Inx(_) => "INX",
            Operation::Dcx(_) => "DCX",
            Operation::Inr(_) => "INR",
            Operation::Dcr(_) => "DCR",
            Operation::Mvi(_) => "MVI",
            Operation::Dad(_) => "DAD",
            Operation::Rlc => "RLC",
            Operation::Rrc => "RRC",
            Operation::Ral => "RAL",
            Operation::Rar => "RAR",
            Operation::Daa => "DAA",
            Operation::Cma => "CMA",
            Operation::Stc => "STC",
            Operation::Cmc => "CMC",
            Operation::Mov(_, _) => "MOV",
            Operation::Hlt => "HLT",
            Operation::Alu(op, _) => op.mnemonic(),
            Operation::AluImm(op) => op.immediate_mnemonic(),
            Operation::Jmp => "JMP",
            Operation::JmpIf(condition) => condition.jump_mnemonic(),
            Operation::Call => "CALL",
            Operation::CallIf(condition) => condition.call_mnemonic(),
            Operation::Ret => "RET",
            Operation::RetIf(condition) => condition.return_mnemonic(),
            Operation::Rst(_) => "RST",
            Operation::Pchl => "PCHL",
            Operation::Push(_) => "PUSH",
            Operation::Pop(_) => "POP",
            Operation::Xthl => "XTHL",
            Operation::Sphl => "SPHL",
            Operation::Xchg => "XCHG",
            Operation::In => "IN",
            Operation::Out => "OUT",
            Operation::Ei => "EI",
            Operation::Di => "DI",
            Operation::Undefined => "Other",
        }
    }

    /// Bytes that follow the opcode.
    pub fn operand_length(self) -> (length: u8)
        ensures
            length == operand_length_of(self),
            length <= 2,
    {
        match self {
            Operation::Lxi(_)
            | Operation::Shld
            | Operation::Lhld
            | Operation::Sta
            | Operation::Lda
            | Operation::Jmp
            | Operation::JmpIf(_)
            | Operation::Call
            | Operation::CallIf(_) => 2,
            Operation::Mvi(_) | Operation::AluImm(_) | Operation::In | Operation::Out => 1,
            _ => 0,
        }
    }
}

/// The table rows `0x00` to `0x3f`.
fn low_row(opcode: u8) -> (operation: Operation)
    requires
        opcode < 0x40,
    ensures
        operation == operation_of(opcode),
{
    match opcode {
        0x00 => Operation::Nop,
        0x01 => Operation::Lxi(RegisterPair::BC),
        0x02 => Operation::Stax(RegisterPair::BC),
        0x03 => Operation::Inx(RegisterPair::BC),
        0x04 => Operation::Inr(Register::B),
        0x05 => Operation::Dcr(Register::B),
        0x06 => Operation::Mvi(Register::B),
        0x07 => Operation::Rlc,
        0x08 => Operation::Undefined,
        0x09 => Operation::Dad(RegisterPair::BC),
        0x0a => Operation::Ldax(RegisterPair::BC),
        0x0b => Operation::Dcx(RegisterPair::BC),
        0x0c => Operation::Inr(Register::C),
        0x0d => Operation::Dcr(Register::C),
        0x0e => Operation::Mvi(Register::C),
        0x0f => Operation::Rrc,
        0x10 => Operation::Undefined,
        0x11 => Operation::Lxi(RegisterPair::DE),
        0x12 => Operation::Stax(RegisterPair::DE),
        0x13 => Operation::Inx(RegisterPair::DE),
        0x14 => Operation::Inr(Register::D),
        0x15 => Operation::Dcr(Register::D),
        0x16 => Operation::Mvi(Register::D),
        0x17 => Operation::Ral,
        0x18 => Operation::Undefined,
        0x19 => Operation::Dad(RegisterPair::DE),
        0x1a => Operation::Ldax(RegisterPair::DE),
        0x1b => Operation::Dcx(RegisterPair::DE),
        0x1c => Operation::Inr(Register::E),
        0x1d => Operation::Dcr(Register::E),
        0x1e => Operation::Mvi(Register::E),
        0x1f => Operation::Rar,
        0x20 => Operation::Undefined,
        0x21 => Operation::Lxi(RegisterPair::HL),
        0x22 => Operation::Shld,
        0x23 => Operation::Inx(RegisterPair::HL),
        0x24 => Operation::Inr(Register::H),
        0x25 => Operation::Dcr(Register::H),
        0x26 => Operation::Mvi(Register::H),
        0x27 => Operation::Daa,
        0x28 => Operation::Undefined,
        0x29 => Operation::Dad(RegisterPair::HL),
        0x2a => Operation::Lhld,
        0x2b => Operation::Dcx(RegisterPair::HL),
        0x2c => Operation::Inr(Register::L),
        0x2d => Operation::Dcr(Register::L),
        0x2e => Operation::Mvi(Register::L),
        0x2f => Operation::Cma,
        0x30 => Operation::Undefined,
        0x31 => Operation::Lxi(RegisterPair::SP),
        0x32 => Operation::Sta,
        0x33 => Operation::Inx(RegisterPair::SP),
        0x34 => Operation::Inr(Register::M),
        0x35 => Operation::Dcr(Register::M),
        0x36 => Operation::Mvi(Register::M),
        0x37 => Operation::Stc,
        0x38 => Operation::Undefined,
        0x39 => Operation::Dad(RegisterPair::SP),
        0x3a => Operation::Lda,
        0x3b => Operation::Dcx(RegisterPair::SP),
        0x3c => Operation::Inr(Register::A),
        0x3d => Operation::Dcr(Register::A),
        0x3e => Operation::Mvi(Register::A),
        _ => Operation::Cmc,
    }
}

/// The table rows `0x40` to `0x7f`.
fn move_row(opcode: u8) -> (operation: Operation)
    requires
        0x40 <= opcode < 0x80,
    ensures
        operation == operation_of(opcode),
{
    match opcode {
        0x40 => Operation::Mov(Register::B, Register::B),
        0x41 => Operation::Mov(Register::B, Register::C),
        0x42 => Operation::Mov(Register::B, Register::D),
        0x43 => Operation::Mov(Register::B, Register::E),
        0x44 => Operation::Mov(Register::B, Register::H),
        0x45 => Operation::Mov(Register::B, Register::L),
        0x46 => Operation::Mov(Register::B, Register::M),
        0x47 => Operation::Mov(Register::B, Register::A),
        0x48 => Operation::Mov(Register::C, Register::B),
        0x49 => Operation::Mov(Register::C, Register::C),
        0x4a => Operation::Mov(Register::C, Register::D),
        0x4b => Operation::Mov(Register::C, Register::E),
        0x4c => Operation::Mov(Register::C, Register::H),
        0x4d => Operation::Mov(Register::C, Register::L),
        0x4e => Operation::Mov(Register::C, Register::M),
        0x4f => Operation::Mov(Register::C, Register::A),
        0x50 => Operation::Mov(Register::D, Register::B),
        0x51 => Operation::Mov(Register::D, Register::C),
        0x52 => Operation::Mov(Register::D, Register::D),
        0x53 => Operation::Mov(Register::D, Register::E),
        0x54 => Operation::Mov(Register::D, Register::H),
        0x55 => Operation::Mov(Register::D, Register::L),
        0x56 => Operation::Mov(Register::D, Register::M),
        0x57 => Operation::Mov(Register::D, Register::A),
        0x58 => Operation::Mov(Register::E, Register::B),
        0x59 => Operation::Mov(Register::E, Register::C),
        0x5a => Operation::Mov(Register::E, Register::D),
        0x5b => Operation::Mov(Register::E, Register::E),
        0x5c => Operation::Mov(Register::E, Register::H),
        0x5d => Operation::Mov(Register::E, Register::L),
        0x5e => Operation::Mov(Register::E, Register::M),
        0x5f => Operation::Mov(Register::E, Register::A),
        0x60 => Operation::Mov(Register::H, Register::B),
        0x61 => Operation::Mov(Register::H, Register::C),
        0x62 => Operation::Mov(Register::H, Register::D),
        0x63 => Operation::Mov(Register::H, Register::E),
        0x64 => Operation::Mov(Register::H, Register::H),
        0x65 => Operation::Mov(Register::H, Register::L),
        0x66 => Operation::Mov(Register::H, Register::M),
        0x67 => Operation::Mov(Register::H, Register::A),
        0x68 => Operation::Mov(Register::L, Register::B),
        0x69 => Operation::Mov(Register::L, Register::C),
        0x6a => Operation::Mov(Register::L, Register::D),
        0x6b => Operation::Mov(Register::L, Register::E),
        0x6c => Operation::Mov(Register::L, Register::H),
        0x6d => Operation::Mov(Register::L, Register::L),
        0x6e => Operation::Mov(Register::L, Register::M),
        0x6f => Operation::Mov(Register::L, Register::A),
        0x70 => Operation::Mov(Register::M, Register::B),
        0x71 => Operation::Mov(Register::M, Register::C),
        0x72 => Operation::Mov(Register::M, Register::D),
        0x73 => Operation::Mov(Register::M, Register::E),
        0x74 => Operation::Mov(Register::M, Register::H),
        0x75 => Operation::Mov(Register::M, Register::L),
        0x76 => Operation::Hlt,
        0x77 => Operation::Mov(Register::M, Register::A),
        0x78 => Operation::Mov(Register::A, Register::B),
        0x79 => Operation::Mov(Register::A, Register::C),
        0x7a => Operation::Mov(Register::A, Register::D),
        0x7b => Operation::Mov(Register::A, Register::E),
        0x7c => Operation::Mov(Register::A, Register::H),
        0x7d => Operation::Mov(Register::A, Register::L),
        0x7e => Operation::Mov(Register::A, Register::M),
        _ => Operation::Mov(Register::A, Register::A),
    }
}

/// The table rows `0x80` to `0xbf`.
fn accumulator_row(opcode: u8) -> (operation: Operation)
    requires
        0x80 <= opcode < 0xc0,
    ensures
        operation == operation_of(opcode),
{
    match opcode {
        0x80 => Operation::Alu(AluOp::Add, Register::B),
        0x81 => Operation::Alu(AluOp::Add, Register::C),
        0x82 => Operation::Alu(AluOp::Add, Register::D),
        0x83 => Operation::Alu(AluOp::Add, Register::E),
        0x84 => Operation::Alu(AluOp::Add, Register::H),
        0x85 => Operation::Alu(AluOp::Add, Register::L),
        0x86 => Operation::Alu(AluOp::Add, Register::M),
        0x87 => Operation::Alu(AluOp::Add, Register::A),
        0x88 => Operation::Alu(AluOp::AddWithCarry, Register::B),
        0x89 => Operation::Alu(AluOp::AddWithCarry, Register::C),
        0x8a => Operation::Alu(AluOp::AddWithCarry, Register::D),
        0x8b => Operation::Alu(AluOp::AddWithCarry, Register::E),
        0x8c => Operation::Alu(AluOp::AddWithCarry, Register::H),
        0x8d => Operation::Alu(AluOp::AddWithCarry, Register::L),
        0x8e => Operation::Alu(AluOp::AddWithCarry, Register::M),
        0x8f => Operation::Alu(AluOp::AddWithCarry, Register::A),
        0x90 => Operation::Alu(AluOp::Subtract, Register::B),
        0x91 => Operation::Alu(AluOp::Subtract, Register::C),
        0x92 => Operation::Alu(AluOp::Subtract, Register::D),
        0x93 => Operation::Alu(AluOp::Subtract, Register::E),
        0x94 => Operation::Alu(AluOp::Subtract, Register::H),
        0x95 => Operation::Alu(AluOp::Subtract, Register::L),
        0x96 => Operation::Alu(AluOp::Subtract, Register::M),
        0x97 => Operation::Alu(AluOp::Subtract, Register::A),
        0x98 => Operation::Alu(AluOp::SubtractWithBorrow, Register::B),
        0x99 => Operation::Alu(AluOp::SubtractWithBorrow, Register::C),
        0x9a => Operation::Alu(AluOp::SubtractWithBorrow, Register::D),
        0x9b => Operation::Alu(AluOp::SubtractWithBorrow, Register::E),
        0x9c => Operation::Alu(AluOp::SubtractWithBorrow, Register::H),
        0x9d => Operation::Alu(AluOp::SubtractWithBorrow, Register::L),
        0x9e => Operation::Alu(AluOp::SubtractWithBorrow, Register::M),
        0x9f => Operation::Alu(AluOp::SubtractWithBorrow, Register::A),
        0xa0 => Operation::Alu(AluOp::And, Register::B),
        0xa1 => Operation::Alu(AluOp::And, Register::C),
        0xa2 => Operation::Alu(AluOp::And, Register::D),
        0xa3 => Operation::Alu(AluOp::And, Register::E),
        0xa4 => Operation::Alu(AluOp::And, Register::H),
        0xa5 => Operation::Alu(AluOp::And, Register::L),
        0xa6 => Operation::Alu(AluOp::And, Register::M),
        0xa7 => Operation::Alu(AluOp::And, Register::A),
        0xa8 => Operation::Alu(AluOp::Xor, Register::B),
        0xa9 => Operation::Alu(AluOp::Xor, Register::C),
        0xaa => Operation::Alu(AluOp::Xor, Register::D),
        0xab => Operation::Alu(AluOp::Xor, Register::E),
        0xac => Operation::Alu(AluOp::Xor, Register::H),
        0xad => Operation::Alu(AluOp::Xor, Register::L),
        0xae => Operation::Alu(AluOp::Xor, Register::M),
        0xaf => Operation::Alu(AluOp::Xor, Register::A),
        0xb0 => Operation::Alu(AluOp::Or, Register::B),
        0xb1 => Operation::Alu(AluOp::Or, Register::C),
        0xb2 => Operation::Alu(AluOp::Or, Register::D),
        0xb3 => Operation::Alu(AluOp::Or, Register::E),
        0xb4 => Operation::Alu(AluOp::Or, Register::H),
        0xb5 => Operation::Alu(AluOp::Or, Register::L),
        0xb6 => Operation::Alu(AluOp::Or, Register::M),
        0xb7 => Operation::Alu(AluOp::Or, Register::A),
        0xb8 => Operation::Alu(AluOp::Compare, Register::B),
        0xb9 => Operation::Alu(AluOp::Compare, Register::C),
        0xba => Operation::Alu(AluOp::Compare, Register::D),
        0xbb => Operation::Alu(AluOp::Compare, Register::E),
        0xbc => Operation::Alu(AluOp::Compare, Register::H),
        0xbd => Operation::Alu(AluOp::Compare, Register::L),
        0xbe => Operation::Alu(AluOp::Compare, Register::M),
        _ => Operation::Alu(AluOp::Compare, Register::A),
    }
}

/// The table rows `0xc0` to `0xff`.
fn high_row(opcode: u8) -> (operation: Operation)
    requires
        0xc0 <= opcode,
    ensures
        operation == operation_of(opcode),
{
    match opcode {
        0xc0 => Operation::RetIf(Condition::NotZero),
        0xc1 => Operation::Pop(StackPair::BC),
        0xc2 => Operation::JmpIf(Condition::NotZero),
        0xc3 => Operation::Jmp,
        0xc4 => Operation::CallIf(Condition::NotZero),
        0xc5 => Operation::Push(StackPair::BC),
        0xc6 => Operation::AluImm(AluOp::Add),
        0xc7 => Operation::Rst(0),
        0xc8 => Operation::RetIf(Condition::Zero),
        0xc9 => Operation::Ret,
        0xca => Operation::JmpIf(Condition::Zero),
        0xcb => Operation::Undefined,
        0xcc => Operation::CallIf(Condition::Zero),
        0xcd => Operation::Call,
        0xce => Operation::AluImm(AluOp::AddWithCarry),
        0xcf => Operation::Rst(1),
        0xd0 => Operation::RetIf(Condition::NoCarry),
        0xd1 => Operation::Pop(StackPair::DE),
        0xd2 => Operation::JmpIf(Condition::NoCarry),
        0xd3 => Operation::Out,
        0xd4 => Operation::CallIf(Condition::NoCarry),
        0xd5 => Operation::Push(StackPair::DE),
        0xd6 => Operation::AluImm(AluOp::Subtract),
        0xd7 => Operation::Rst(2),
        0xd8 => Operation::RetIf(Condition::Carry),
        0xd9 => Operation::Undefined,
        0xda => Operation::JmpIf(Condition::Carry),
        0xdb => Operation::In,
        0xdc => Operation::CallIf(Condition::Carry),
        0xdd => Operation::Undefined,
        0xde => Operation::AluImm(AluOp::SubtractWithBorrow),
        0xdf => Operation::Rst(3),
        0xe0 => Operation::RetIf(Condition::ParityOdd),
        0xe1 => Operation::Pop(StackPair::HL),
        0xe2 => Operation::JmpIf(Condition::ParityOdd),
        0xe3 => Operation::Xthl,
        0xe4 => Operation::CallIf(Condition::ParityOdd),
        0xe5 => Operation::Push(StackPair::HL),
        0xe6 => Operation::AluImm(AluOp::And),
        0xe7 => Operation::Rst(4),
        0xe8 => Operation::RetIf(Condition::ParityEven),
        0xe9 => Operation::Pchl,
        0xea => Operation::JmpIf(Condition::ParityEven),
        0xeb => Operation::Xchg,
        0xec => Operation::CallIf(Condition::ParityEven),
        0xed => Operation::Undefined,
        0xee => Operation::AluImm(AluOp::Xor),
        0xef => Operation::Rst(5),
        0xf0 => Operation::RetIf(Condition::Plus),
        0xf1 => Operation::Pop(StackPair::PSW),
        0xf2 => Operation::JmpIf(Condition::Plus),
        0xf3 => Operation::Di,
        0xf4 => Operation::CallIf(Condition::Plus),
        0xf5 => Operation::Push(StackPair::PSW),
        0xf6 => Operation::AluImm(AluOp::Or),
        0xf7 => Operation::Rst(6),
        0xf8 => Operation::RetIf(Condition::Minus),
        0xf9 => Operation::Sphl,
        0xfa => Operation::JmpIf(Condition::Minus),
        0xfb => Operation::Ei,
        0xfc => Operation::CallIf(Condition::Minus),
        0xfd => Operation::Undefined,
        0xfe => Operation::AluImm(AluOp::Compare),
        _ => Operation::Rst(7),
    }
}

/// The descriptor of an opcode byte. Every byte has one: a byte that is no
/// documented instruction gets `Operation::Undefined` with no operand bytes.
pub fn lookup(opcode: u8) -> (descriptor: InstructionDescriptor)
    ensures
        descriptor.opcode == opcode,
        descriptor.operation == operation_of(opcode),
        descriptor.mnemonic@ == mnemonic_of(operation_of(opcode)),
        descriptor.operand_length == operand_length_of(operation_of(opcode)),
        descriptor.operand_length <= 2,
        descriptor.operand_length + 1 == documented_length(opcode),
        descriptor.operation == Operation::Undefined <==> is_undocumented_opcode(opcode),
{
    let operation = if opcode < 0x40 {
        low_row(opcode)
    } else if opcode < 0x80 {
        move_row(opcode)
    } else if opcode < 0xc0 {
        accumulator_row(opcode)
    } else {
        high_row(opcode)
    };
    proof {
        lemma_documented_lengths(opcode);
    }
    InstructionDescriptor {
        opcode,
        mnemonic: operation.mnemonic(),
        operand_length: operation.operand_length(),
        operation,
    }
}

/// Every opcode has zero, one or two operand bytes, and its total length is the
/// one that the manual documents; the operation is undefined exactly for the
/// bytes that the manual leaves out.
pub proof fn lemma_documented_lengths(opcode: u8)
    ensures
        operand_length_of(operation_of(opcode)) <= 2,
        operand_length_of(operation_of(opcode)) + 1 == documented_length(opcode),
        operation_of(opcode) == Operation::Undefined <==> is_undocumented_opcode(opcode),
{
}

} // verus!
