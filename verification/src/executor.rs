//! The executor: one call runs one instruction.
//!
//! `step` says, as a function on `Machine`, what one instruction does.
//! `emulate_8080` does it to a `State8080`. An instruction runs completely or
//! not at all: where it would touch an address outside memory, or leave the
//! program counter outside memory, the state keeps its registers, flags and
//! memory, stops running, and the outcome names the address.

use crate::flags::{
    alu_add, alu_add_spec, alu_and, alu_and_spec, alu_or, alu_or_spec, alu_subtract,
    alu_subtract_spec, alu_xor, alu_xor_spec, decimal_adjust, decimal_adjust_spec, decrement,
    decrement_spec, increment, increment_spec, rotate_left, rotate_left_spec,
    rotate_left_through_carry, rotate_left_through_carry_spec, rotate_right, rotate_right_spec,
    rotate_right_through_carry, rotate_right_through_carry_spec, wide_add, wide_add_spec,
    wide_decrement, wide_decrement_spec, wide_increment, wide_increment_spec, AluResult,
    ConditionFlags,
};
use crate::instruction::{
    lookup, operand_length_of, operation_of, AluOp, Condition, Operation, Register, RegisterPair,
    StackPair,
};
use crate::state::{make_word, word, Machine, State8080};
use vstd::pervasive::unreached;
use vstd::prelude::*;

verus! {

/// A condition that ends a run.
#[derive(Clone, Copy, Debug, PartialEq, Eq, Structural)]
pub enum Fault {
    /// The instruction with this opcode needed `address`, which lies outside memory.
    OutOfBoundsMemoryAccess { address: u32, opcode: u8 },
    /// The byte is no 8080 instruction.
    UndefinedOpcode { opcode: u8 },
    /// The port hook rejected the port.
    InvalidPort { port: u8 },
}

/// What one step did.
#[derive(Clone, Copy, Debug, PartialEq, Eq, Structural)]
pub enum StepOutcome {
    /// An instruction ran; the machine goes on.
    Continue,
    /// The machine is halted: HLT ran, or the machine was not running.
    Halted,
    /// IN ran: the accumulator waits for the byte that `port` delivers.
    PortRead { port: u8 },
    /// OUT ran: `value` goes to `port`.
    PortWrite { port: u8, value: u8 },
    /// The machine stopped on a fault.
    Fatal(Fault),
    /// The instruction is known but has no execution semantics.
    Unimplemented { opcode: u8 },
}

/// What an instruction asks for, before the program counter is checked.
pub enum Effect {
    /// The instruction ran: `machine` holds the new registers, flags and
    /// memory, and execution goes on at `pc`.
    Done { machine: Machine, pc: int, outcome: StepOutcome },
    /// The instruction needs `address`, which lies outside memory.
    Fault { address: int },
    /// The byte is no instruction.
    Undefined,
}

/// A state and the outcome that came with it.
pub struct Transition {
    pub machine: Machine,
    pub outcome: StepOutcome,
}

pub open spec fn halted(m: Machine) -> Machine {
    Machine { running: false, ..m }
}

pub open spec fn fatal(m: Machine, fault: Fault) -> Transition {
    Transition { machine: halted(m), outcome: StepOutcome::Fatal(fault) }
}

/// Applies an effect: the new state is taken over where the next program
/// counter points into memory; every other case stops `m` unchanged.
pub open spec fn commit(m: Machine, opcode: u8, effect: Effect) -> Transition {
    match effect {
        Effect::Done { machine, pc, outcome } => if m.in_memory(pc) {
            Transition { machine: Machine { pc: pc as u16, ..machine }, outcome }
        } else {
            fatal(m, Fault::OutOfBoundsMemoryAccess { address: pc as u32, opcode })
        },
        Effect::Fault { address } => fatal(
            m,
            Fault::OutOfBoundsMemoryAccess { address: address as u32, opcode },
        ),
        Effect::Undefined => fatal(m, Fault::UndefinedOpcode { opcode }),
    }
}

pub open spec fn done(machine: Machine, pc: int) -> Effect {
    Effect::Done { machine, pc, outcome: StepOutcome::Continue }
}

pub open spec fn condition_holds(condition: Condition, flags: ConditionFlags) -> bool {
    match condition {
        Condition::NotZero => !flags.zero,
        Condition::Zero => flags.zero,
        Condition::NoCarry => !flags.carry,
        Condition::Carry => flags.carry,
        Condition::ParityOdd => !flags.parity,
        Condition::ParityEven => flags.parity,
        Condition::Plus => !flags.sign,
        Condition::Minus => flags.sign,
    }
}

/// The accumulator and flags after `op` on accumulator `a` and `operand`.
/// A comparison leaves the accumulator as it is.
pub open spec fn alu_spec(op: AluOp, a: u8, operand: u8, flags: ConditionFlags) -> AluResult {
    match op {
        AluOp::Add => alu_add_spec(a, operand, false),
        AluOp::AddWithCarry => alu_add_spec(a, operand, flags.carry),
        AluOp::Subtract => alu_subtract_spec(a, operand, false),
        AluOp::SubtractWithBorrow => alu_subtract_spec(a, operand, flags.carry),
        AluOp::And => alu_and_spec(a, operand, flags),
        AluOp::Xor => alu_xor_spec(a, operand, flags),
        AluOp::Or => alu_or_spec(a, operand, flags),
        AluOp::Compare => AluResult { value: a, flags: alu_subtract_spec(a, operand, false).flags },
    }
}

pub open spec fn accumulate(m: Machine, op: AluOp, operand: u8) -> Machine {
    Machine {
        a: alu_spec(op, m.a, operand, m.flags).value,
        flags: alu_spec(op, m.a, operand, m.flags).flags,
        ..m
    }
}

/// The lowest address of the word at `address` that lies outside memory.
pub open spec fn word_fault(m: Machine, address: int) -> int {
    if m.in_memory(address) {
        address + 1
    } else {
        address
    }
}

pub open spec fn word_in_memory(m: Machine, address: int) -> bool {
    m.in_memory(address) && m.in_memory(address + 1)
}

/// The stack pointer after a push: two less, in sixteen bits.
pub open spec fn pushed_sp(m: Machine) -> u16 {
    wide_decrement_spec(wide_decrement_spec(m.sp))
}

/// The stack pointer after a pop: two more, in sixteen bits.
pub open spec fn popped_sp(m: Machine) -> u16 {
    wide_increment_spec(wide_increment_spec(m.sp))
}

/// The stack pointer goes down by two and `value` is stored where it then
/// points, low byte first; execution goes on at `pc`.
pub open spec fn push_effect(m: Machine, value: u16, pc: int) -> Effect {
    let top = pushed_sp(m);
    if word_in_memory(m, top as int) {
        done(Machine { sp: top, ..m.store_word(top as int, value) }, pc)
    } else {
        Effect::Fault { address: word_fault(m, top as int) }
    }
}

/// A call: the return address must point into memory; it is pushed, and
/// execution goes on at `target`.
pub open spec fn call_effect(m: Machine, return_address: int, target: int) -> Effect {
    if m.in_memory(return_address) {
        push_effect(m, return_address as u16, target)
    } else {
        Effect::Fault { address: return_address }
    }
}

/// A return: the word at the stack pointer becomes the program counter and
/// the stack pointer goes up by two.
pub open spec fn return_effect(m: Machine) -> Effect {
    if word_in_memory(m, m.sp as int) {
        done(Machine { sp: popped_sp(m), ..m }, m.load_word(m.sp as int) as int)
    } else {
        Effect::Fault { address: word_fault(m, m.sp as int) }
    }
}

pub open spec fn next_pc(m: Machine, operation: Operation) -> int {
    m.pc + 1 + operand_length_of(operation)
}

/// The loads, stores and moves.
pub open spec fn is_transfer(operation: Operation) -> bool {
    match operation {
        Operation::Nop
        | Operation::Lxi(_)
        | Operation::Stax(_)
        | Operation::Ldax(_)
        | Operation::Shld
        | Operation::Lhld
        | Operation::Sta
        | Operation::Lda
        | Operation::Mvi(_)
        | Operation::Mov(_, _)
        | Operation::Xchg
        | Operation::Sphl => true,
        _ => false,
    }
}

/// The increments, the decrements and the 16-bit addition.
pub open spec fn is_counting(operation: Operation) -> bool {
    match operation {
        Operation::Inx(_)
        | Operation::Dcx(_)
        | Operation::Inr(_)
        | Operation::Dcr(_)
        | Operation::Dad(_) => true,
        _ => false,
    }
}

/// The operations on the accumulator and the flags.
pub open spec fn is_accumulator(operation: Operation) -> bool {
    match operation {
        Operation::Rlc
        | Operation::Rrc
        | Operation::Ral
        | Operation::Rar
        | Operation::Daa
        | Operation::Cma
        | Operation::Stc
        | Operation::Cmc
        | Operation::Alu(_, _)
        | Operation::AluImm(_) => true,
        _ => false,
    }
}

/// The jumps, calls and returns.
pub open spec fn is_branch(operation: Operation) -> bool {
    match operation {
        Operation::Jmp
        | Operation::JmpIf(_)
        | Operation::Call
        | Operation::CallIf(_)
        | Operation::Ret
        | Operation::RetIf(_)
        | Operation::Rst(_)
        | Operation::Pchl => true,
        _ => false,
    }
}

/// What a load, store or move asks of state `m`.
pub open spec fn transfer_effect(m: Machine, operation: Operation, lo: u8, hi: u8) -> Effect {
    let next = next_pc(m, operation);
    let hl = m.hl() as int;
    let direct = word(hi, lo) as int;
    match operation {
        Operation::Nop => done(m, next),
        Operation::Lxi(rp) => done(m.with_pair(rp, word(hi, lo)), next),
        Operation::Stax(rp) => if m.in_memory(m.pair(rp) as int) {
            done(m.store(m.pair(rp) as int, m.a), next)
        } else {
            Effect::Fault { address: m.pair(rp) as int }
        },
        Operation::Ldax(rp) => if m.in_memory(m.pair(rp) as int) {
            done(Machine { a: m.memory[m.pair(rp) as int], ..m }, next)
        } else {
            Effect::Fault { address: m.pair(rp) as int }
        },
        Operation::Shld => if word_in_memory(m, direct) {
            done(m.store_word(direct, m.hl()), next)
        } else {
            Effect::Fault { address: word_fault(m, direct) }
        },
        Operation::Lhld => if word_in_memory(m, direct) {
            done(m.with_pair(RegisterPair::HL, m.load_word(direct)), next)
        } else {
            Effect::Fault { address: word_fault(m, direct) }
        },
        Operation::Sta => if m.in_memory(direct) {
            done(m.store(direct, m.a), next)
        } else {
            Effect::Fault { address: direct }
        },
        Operation::Lda => if m.in_memory(direct) {
            done(Machine { a: m.memory[direct], ..m }, next)
        } else {
            Effect::Fault { address: direct }
        },
        Operation::Mvi(r) => if m.register_accessible(r) {
            done(m.with_register(r, lo), next)
        } else {
            Effect::Fault { address: hl }
        },
        Operation::Mov(to, from) => if m.register_accessible(from) && m.register_accessible(to) {
            done(m.with_register(to, m.register(from)), next)
        } else {
            Effect::Fault { address: hl }
        },
        Operation::Xchg => done(Machine { d: m.h, e: m.l, h: m.d, l: m.e, ..m }, next),
        Operation::Sphl => done(Machine { sp: m.hl(), ..m }, next),
        _ => Effect::Undefined,
    }
}

/// What an increment, a decrement or the 16-bit addition asks of state `m`.
pub open spec fn counting_effect(m: Machine, operation: Operation, lo: u8, hi: u8) -> Effect {
    let next = next_pc(m, operation);
    let hl = m.hl() as int;
    match operation {
        Operation::Inx(rp) => done(m.with_pair(rp, wide_increment_spec(m.pair(rp))), next),
        Operation::Dcx(rp) => done(m.with_pair(rp, wide_decrement_spec(m.pair(rp))), next),
        Operation::Inr(r) => if m.register_accessible(r) {
            done(
                Machine {
                    flags: increment_spec(m.register(r), m.flags).flags,
                    ..m.with_register(r, increment_spec(m.register(r), m.flags).value)
                },
                next,
            )
        } else {
            Effect::Fault { address: hl }
        },
        Operation::Dcr(r) => if m.register_accessible(r) {
            done(
                Machine {
                    flags: decrement_spec(m.register(r), m.flags).flags,
                    ..m.with_register(r, decrement_spec(m.register(r), m.flags).value)
                },
                next,
            )
        } else {
            Effect::Fault { address: hl }
        },
        Operation::Dad(rp) => done(
            Machine {
                flags: ConditionFlags { carry: wide_add_spec(m.hl(), m.pair(rp)).carry, ..m.flags },
                ..m.with_pair(RegisterPair::HL, wide_add_spec(m.hl(), m.pair(rp)).value)
            },
            next,
        ),
        _ => Effect::Undefined,
    }
}

/// What an operation on the accumulator or the flags asks of state `m`.
pub open spec fn accumulator_effect(m: Machine, operation: Operation, lo: u8, hi: u8) -> Effect {
    let next = next_pc(m, operation);
    let hl = m.hl() as int;
    match operation {
        Operation::Rlc => done(
            Machine {
                a: rotate_left_spec(m.a).value,
                flags: ConditionFlags { carry: rotate_left_spec(m.a).carry, ..m.flags },
                ..m
            },
            next,
        ),
        Operation::Rrc => done(
            Machine {
                a: rotate_right_spec(m.a).value,
                flags: ConditionFlags { carry: rotate_right_spec(m.a).carry, ..m.flags },
                ..m
            },
            next,
        ),
        Operation::Ral => done(
            Machine {
                a: rotate_left_through_carry_spec(m.a, m.flags.carry).value,
                flags: ConditionFlags {
                    carry: rotate_left_through_carry_spec(m.a, m.flags.carry).carry,
                    ..m.flags
                },
                ..m
            },
            next,
        ),
        Operation::Rar => done(
            Machine {
                a: rotate_right_through_carry_spec(m.a, m.flags.carry).value,
                flags: ConditionFlags {
                    carry: rotate_right_through_carry_spec(m.a, m.flags.carry).carry,
                    ..m.flags
                },
                ..m
            },
            next,
        ),
        Operation::Daa => done(
            Machine {
                a: decimal_adjust_spec(m.a, m.flags).value,
                flags: decimal_adjust_spec(m.a, m.flags).flags,
                ..m
            },
            next,
        ),
        Operation::Cma => done(Machine { a: (255 - m.a) as u8, ..m }, next),
        Operation::Stc => done(
            Machine { flags: ConditionFlags { carry: true, ..m.flags }, ..m },
            next,
        ),
        Operation::Cmc => done(
            Machine { flags: ConditionFlags { carry: !m.flags.carry, ..m.flags }, ..m },
            next,
        ),
        Operation::Alu(op, r) => if m.register_accessible(r) {
            done(accumulate(m, op, m.register(r)), next)
        } else {
            Effect::Fault { address: hl }
        },
        Operation::AluImm(op) => done(accumulate(m, op, lo), next),
        _ => Effect::Undefined,
    }
}

/// What a jump, call or return asks of state `m`.
pub open spec fn branch_effect(m: Machine, operation: Operation, lo: u8, hi: u8) -> Effect {
    let next = next_pc(m, operation);
    let hl = m.hl() as int;
    let direct = word(hi, lo) as int;
    match operation {
        Operation::Jmp => done(m, direct),
        Operation::JmpIf(condition) => if condition_holds(condition, m.flags) {
            done(m, direct)
        } else {
            done(m, next)
        },
        Operation::Call => call_effect(m, next, direct),
        Operation::CallIf(condition) => if condition_holds(condition, m.flags) {
            call_effect(m, next, direct)
        } else {
            done(m, next)
        },
        Operation::Ret => return_effect(m),
        Operation::RetIf(condition) => if condition_holds(condition, m.flags) {
            return_effect(m)
        } else {
            done(m, next)
        },
        Operation::Rst(n) => call_effect(m, next, 8 * n),
        Operation::Pchl => done(m, hl),
        _ => Effect::Undefined,
    }
}

/// What the stack, the ports, the interrupt latch and HLT ask of state `m`;
/// a byte that is no instruction asks for nothing and is undefined.
pub open spec fn control_effect(m: Machine, operation: Operation, lo: u8, hi: u8) -> Effect {
    let next = next_pc(m, operation);
    match operation {
        Operation::Push(pair) => push_effect(m, m.stack_pair(pair), next),
        Operation::Pop(pair) => if word_in_memory(m, m.sp as int) {
            done(
                Machine {
                    sp: popped_sp(m),
                    ..m.with_stack_pair(pair, m.load_word(m.sp as int))
                },
                next,
            )
        } else {
            Effect::Fault { address: word_fault(m, m.sp as int) }
        },
        Operation::Xthl => if word_in_memory(m, m.sp as int) {
            done(
                m.store_word(m.sp as int, m.hl()).with_pair(
                    RegisterPair::HL,
                    m.load_word(m.sp as int),
                ),
                next,
            )
        } else {
            Effect::Fault { address: word_fault(m, m.sp as int) }
        },
        Operation::In => Effect::Done {
            machine: m,
            pc: next,
            outcome: StepOutcome::PortRead { port: lo },
        },
        Operation::Out => Effect::Done {
            machine: m,
            pc: next,
            outcome: StepOutcome::PortWrite { port: lo, value: m.a },
        },
        Operation::Ei => done(Machine { int_enable: true, ..m }, next),
        Operation::Di => done(Machine { int_enable: false, ..m }, next),
        Operation::Hlt => Effect::Done {
            machine: halted(m),
            pc: next,
            outcome: StepOutcome::Halted,
        },
        _ => Effect::Undefined,
    }
}

/// What `operation` with operand bytes `lo` and `hi` asks of state `m`.
pub open spec fn effect(m: Machine, operation: Operation, lo: u8, hi: u8) -> Effect {
    if is_transfer(operation) {
        transfer_effect(m, operation, lo, hi)
    } else if is_counting(operation) {
        counting_effect(m, operation, lo, hi)
    } else if is_accumulator(operation) {
        accumulator_effect(m, operation, lo, hi)
    } else if is_branch(operation) {
        branch_effect(m, operation, lo, hi)
    } else {
        control_effect(m, operation, lo, hi)
    }
}


/// Operand byte `index` of the instruction at the program counter, or 0
/// where the instruction has fewer operand bytes.
pub open spec fn operand(m: Machine, index: int, length: int) -> u8 {
    if index <= length {
        m.memory[m.pc + index]
    } else {
        0
    }
}

/// One step of the machine. A machine that is not running stays as it is.
/// Otherwise the opcode at the program counter is looked up; where its
/// operand bytes lie beyond the end of memory the machine stops, and else the
/// instruction's effect is applied.
pub open spec fn step(m: Machine) -> Transition {
    if !m.running {
        Transition { machine: m, outcome: StepOutcome::Halted }
    } else {
        let opcode = m.memory[m.pc as int];
        let operation = operation_of(opcode);
        let length = operand_length_of(operation) as int;
        if m.in_memory(m.pc + length) {
            commit(
                m,
                opcode,
                effect(m, operation, operand(m, 1, length), operand(m, 2, length)),
            )
        } else {
            fatal(
                m,
                Fault::OutOfBoundsMemoryAccess { address: m.memory.len() as u32, opcode },
            )
        }
    }
}

/// What every instruction can rely on once its bytes have been fetched:
/// the machine runs, its operand bytes lie in memory, and `next` is the
/// address behind them.
pub open spec fn fetched(m: Machine, operation: Operation, next: int) -> bool {
    &&& m.wf()
    &&& m.running
    &&& m.in_memory(m.pc + operand_length_of(operation))
    &&& next == next_pc(m, operation)
}

/// `lo` and `hi` are the operand bytes of `operation`, and 0 where it has fewer.
pub open spec fn operands_are(operation: Operation, lo: u8, hi: u8) -> bool {
    &&& operand_length_of(operation) < 1 ==> lo == 0
    &&& operand_length_of(operation) < 2 ==> hi == 0
}

/// `after` and `outcome` are what `effect` makes of `before`.
pub open spec fn performs(
    before: Machine,
    after: Machine,
    outcome: StepOutcome,
    opcode: u8,
    effect: Effect,
) -> bool {
    &&& after == commit(before, opcode, effect).machine
    &&& outcome == commit(before, opcode, effect).outcome
}

fn fail(state: &mut State8080, address: u32, opcode: u8) -> (outcome: StepOutcome)
    ensures
        final(state)@ == halted(old(state)@),
        outcome == StepOutcome::Fatal(Fault::OutOfBoundsMemoryAccess { address, opcode }),
{
    state.stop();
    StepOutcome::Fatal(Fault::OutOfBoundsMemoryAccess { address, opcode })
}

fn holds(condition: Condition, flags: ConditionFlags) -> (taken: bool)
    ensures
        taken == condition_holds(condition, flags),
{
    match condition {
        Condition::NotZero => !flags.zero,
        Condition::Zero => flags.zero,
        Condition::NoCarry => !flags.carry,
        Condition::Carry => flags.carry,
        Condition::ParityOdd => !flags.parity,
        Condition::ParityEven => flags.parity,
        Condition::Plus => !flags.sign,
        Condition::Minus => flags.sign,
    }
}

fn alu(op: AluOp, a: u8, operand: u8, flags: ConditionFlags) -> (result: AluResult)
    ensures
        result == alu_spec(op, a, operand, flags),
{
    match op {
        AluOp::Add => alu_add(a, operand, false),
        AluOp::AddWithCarry => alu_add(a, operand, flags.carry),
        AluOp::Subtract => alu_subtract(a, operand, false),
        AluOp::SubtractWithBorrow => alu_subtract(a, operand, flags.carry),
        AluOp::And => alu_and(a, operand, flags),
        AluOp::Xor => alu_xor(a, operand, flags),
        AluOp::Or => alu_or(a, operand, flags),
        AluOp::Compare => AluResult { value: a, flags: alu_subtract(a, operand, false).flags },
    }
}

/// The lowest address of the word at `address` that lies outside memory, if there is one.
fn word_check(state: &State8080, address: u32) -> (fault: Option<u32>)
    requires
        address <= 0xffff,
    ensures
        fault is None <==> word_in_memory(state@, address as int),
        fault matches Some(outside) ==> outside == word_fault(state@, address as int),
{
    if !state.in_memory(address) {
        Some(address)
    } else if !state.in_memory(address + 1) {
        Some(address + 1)
    } else {
        None
    }
}

/// Goes on at `target` with nothing else changed.
fn go(state: &mut State8080, opcode: u8, target: u32) -> (outcome: StepOutcome)
    ensures
        performs(old(state)@, final(state)@, outcome, opcode, done(old(state)@, target as int)),
{
    if !state.in_memory(target) {
        return fail(state, target, opcode);
    }
    state.jump(target);
    StepOutcome::Continue
}

/// Sets operand `r` and goes on at `next`.
fn write_register(state: &mut State8080, opcode: u8, r: Register, value: u8, next: u32) -> (outcome:
    StepOutcome)
    requires
        old(state)@.register_accessible(r),
    ensures
        performs(
            old(state)@,
            final(state)@,
            outcome,
            opcode,
            done(old(state)@.with_register(r, value), next as int),
        ),
{
    if !state.in_memory(next) {
        return fail(state, next, opcode);
    }
    state.put(r, value);
    state.jump(next);
    StepOutcome::Continue
}

/// Sets operand `r` and the flags and goes on at `next`.
fn write_result(
    state: &mut State8080,
    opcode: u8,
    r: Register,
    result: AluResult,
    next: u32,
) -> (outcome: StepOutcome)
    requires
        old(state)@.register_accessible(r),
    ensures
        performs(
            old(state)@,
            final(state)@,
            outcome,
            opcode,
            done(
                Machine { flags: result.flags, ..old(state)@.with_register(r, result.value) },
                next as int,
            ),
        ),
{
    if !state.in_memory(next) {
        return fail(state, next, opcode);
    }
    state.put(r, result.value);
    state.set_condition_flags(result.flags);
    state.jump(next);
    StepOutcome::Continue
}

/// Sets the accumulator and the flags and goes on at `next`.
fn write_accumulator(state: &mut State8080, opcode: u8, result: AluResult, next: u32) -> (outcome:
    StepOutcome)
    ensures
        performs(
            old(state)@,
            final(state)@,
            outcome,
            opcode,
            done(Machine { a: result.value, flags: result.flags, ..old(state)@ }, next as int),
        ),
{
    if !state.in_memory(next) {
        return fail(state, next, opcode);
    }
    state.put(Register::A, result.value);
    state.set_condition_flags(result.flags);
    state.jump(next);
    StepOutcome::Continue
}

/// Sets register pair `rp` and goes on at `next`.
fn write_pair(
    state: &mut State8080,
    opcode: u8,
    rp: RegisterPair,
    value: u16,
    next: u32,
) -> (outcome: StepOutcome)
    ensures
        performs(
            old(state)@,
            final(state)@,
            outcome,
            opcode,
            done(old(state)@.with_pair(rp, value), next as int),
        ),
{
    if !state.in_memory(next) {
        return fail(state, next, opcode);
    }
    state.set_register_pair(rp, value);
    state.jump(next);
    StepOutcome::Continue
}

/// Stores a byte and goes on at `next`.
fn write_memory(state: &mut State8080, opcode: u8, address: u32, value: u8, next: u32) -> (outcome:
    StepOutcome)
    requires
        old(state)@.in_memory(address as int),
    ensures
        performs(
            old(state)@,
            final(state)@,
            outcome,
            opcode,
            done(old(state)@.store(address as int, value), next as int),
        ),
{
    if !state.in_memory(next) {
        return fail(state, next, opcode);
    }
    state.store(address, value);
    state.jump(next);
    StepOutcome::Continue
}

fn stax(state: &mut State8080, opcode: u8, rp: RegisterPair, next: u32) -> (outcome: StepOutcome)
    requires
        fetched(old(state)@, Operation::Stax(rp), next as int),
    ensures
        performs(
            old(state)@,
            final(state)@,
            outcome,
            opcode,
            transfer_effect(old(state)@, Operation::Stax(rp), 0, 0),
        ),
{
    let address: u32 = state.register_pair(rp) as u32;
    if !state.in_memory(address) {
        return fail(state, address, opcode);
    }
    let a: u8 = state.a();
    write_memory(state, opcode, address, a, next)
}

fn ldax(state: &mut State8080, opcode: u8, rp: RegisterPair, next: u32) -> (outcome: StepOutcome)
    requires
        fetched(old(state)@, Operation::Ldax(rp), next as int),
    ensures
        performs(
            old(state)@,
            final(state)@,
            outcome,
            opcode,
            transfer_effect(old(state)@, Operation::Ldax(rp), 0, 0),
        ),
{
    let address: u32 = state.register_pair(rp) as u32;
    if !state.in_memory(address) {
        return fail(state, address, opcode);
    }
    let value: u8 = state.load_byte(address);
    write_register(state, opcode, Register::A, value, next)
}

fn shld(state: &mut State8080, opcode: u8, lo: u8, hi: u8, next: u32) -> (outcome: StepOutcome)
    requires
        fetched(old(state)@, Operation::Shld, next as int),
    ensures
        performs(
            old(state)@,
            final(state)@,
            outcome,
            opcode,
            transfer_effect(old(state)@, Operation::Shld, lo, hi),
        ),
{
    let direct: u32 = make_word(hi, lo) as u32;
    if let Some(outside) = word_check(state, direct) {
        return fail(state, outside, opcode);
    }
    if !state.in_memory(next) {
        return fail(state, next, opcode);
    }
    let hl: u16 = state.register_pair(RegisterPair::HL);
    state.store_word(direct, hl);
    state.jump(next);
    StepOutcome::Continue
}

fn lhld(state: &mut State8080, opcode: u8, lo: u8, hi: u8, next: u32) -> (outcome: StepOutcome)
    requires
        fetched(old(state)@, Operation::Lhld, next as int),
    ensures
        performs(
            old(state)@,
            final(state)@,
            outcome,
            opcode,
            transfer_effect(old(state)@, Operation::Lhld, lo, hi),
        ),
{
    let direct: u32 = make_word(hi, lo) as u32;
    if let Some(outside) = word_check(state, direct) {
        return fail(state, outside, opcode);
    }
    let value: u16 = state.load_word(direct);
    write_pair(state, opcode, RegisterPair::HL, value, next)
}

fn sta(state: &mut State8080, opcode: u8, lo: u8, hi: u8, next: u32) -> (outcome: StepOutcome)
    requires
        fetched(old(state)@, Operation::Sta, next as int),
    ensures
        performs(
            old(state)@,
            final(state)@,
            outcome,
            opcode,
            transfer_effect(old(state)@, Operation::Sta, lo, hi),
        ),
{
    let direct: u32 = make_word(hi, lo) as u32;
    if !state.in_memory(direct) {
        return fail(state, direct, opcode);
    }
    let a: u8 = state.a();
    write_memory(state, opcode, direct, a, next)
}

fn lda(state: &mut State8080, opcode: u8, lo: u8, hi: u8, next: u32) -> (outcome: StepOutcome)
    requires
        fetched(old(state)@, Operation::Lda, next as int),
    ensures
        performs(
            old(state)@,
            final(state)@,
            outcome,
            opcode,
            transfer_effect(old(state)@, Operation::Lda, lo, hi),
        ),
{
    let direct: u32 = make_word(hi, lo) as u32;
    if !state.in_memory(direct) {
        return fail(state, direct, opcode);
    }
    let value: u8 = state.load_byte(direct);
    write_register(state, opcode, Register::A, value, next)
}

fn mvi(state: &mut State8080, opcode: u8, r: Register, lo: u8, next: u32) -> (outcome:
    StepOutcome)
    requires
        fetched(old(state)@, Operation::Mvi(r), next as int),
    ensures
        performs(
            old(state)@,
            final(state)@,
            outcome,
            opcode,
            transfer_effect(old(state)@, Operation::Mvi(r), lo, 0),
        ),
{
    if !state.accessible(r) {
        let hl: u32 = state.register_pair(RegisterPair::HL) as u32;
        return fail(state, hl, opcode);
    }
    write_register(state, opcode, r, lo, next)
}

fn mov(
    state: &mut State8080,
    opcode: u8,
    to: Register,
    from: Register,
    next: u32,
) -> (outcome: StepOutcome)
    requires
        fetched(old(state)@, Operation::Mov(to, from), next as int),
    ensures
        performs(
            old(state)@,
            final(state)@,
            outcome,
            opcode,
            transfer_effect(old(state)@, Operation::Mov(to, from), 0, 0),
        ),
{
    if !(state.accessible(from) && state.accessible(to)) {
        let hl: u32 = state.register_pair(RegisterPair::HL) as u32;
        return fail(state, hl, opcode);
    }
    let value: u8 = state.get(from);
    write_register(state, opcode, to, value, next)
}

fn xchg(state: &mut State8080, opcode: u8, next: u32) -> (outcome: StepOutcome)
    requires
        fetched(old(state)@, Operation::Xchg, next as int),
    ensures
        performs(
            old(state)@,
            final(state)@,
            outcome,
            opcode,
            transfer_effect(old(state)@, Operation::Xchg, 0, 0),
        ),
{
    if !state.in_memory(next) {
        return fail(state, next, opcode);
    }
    let d: u8 = state.d();
    let e: u8 = state.e();
    let h: u8 = state.h();
    let l: u8 = state.l();
    state.put(Register::D, h);
    state.put(Register::E, l);
    state.put(Register::H, d);
    state.put(Register::L, e);
    state.jump(next);
    StepOutcome::Continue
}

fn execute_transfer(
    state: &mut State8080,
    opcode: u8,
    operation: Operation,
    lo: u8,
    hi: u8,
    next: u32,
) -> (outcome: StepOutcome)
    requires
        fetched(old(state)@, operation, next as int),
        operands_are(operation, lo, hi),
        is_transfer(operation),
    ensures
        performs(
            old(state)@,
            final(state)@,
            outcome,
            opcode,
            transfer_effect(old(state)@, operation, lo, hi),
        ),
{
    match operation {
        Operation::Nop => go(state, opcode, next),
        Operation::Lxi(rp) => write_pair(state, opcode, rp, make_word(hi, lo), next),
        Operation::Stax(rp) => stax(state, opcode, rp, next),
        Operation::Ldax(rp) => ldax(state, opcode, rp, next),
        Operation::Shld => shld(state, opcode, lo, hi, next),
        Operation::Lhld => lhld(state, opcode, lo, hi, next),
        Operation::Sta => sta(state, opcode, lo, hi, next),
        Operation::Lda => lda(state, opcode, lo, hi, next),
        Operation::Mvi(r) => mvi(state, opcode, r, lo, next),
        Operation::Mov(to, from) => mov(state, opcode, to, from, next),
        Operation::Xchg => xchg(state, opcode, next),
        Operation::Sphl => {
            let hl: u16 = state.register_pair(RegisterPair::HL);
            write_pair(state, opcode, RegisterPair::SP, hl, next)
        },
        _ => unreached(),
    }
}

fn inr(state: &mut State8080, opcode: u8, r: Register, next: u32) -> (outcome: StepOutcome)
    requires
        fetched(old(state)@, Operation::Inr(r), next as int),
    ensures
        performs(
            old(state)@,
            final(state)@,
            outcome,
            opcode,
            counting_effect(old(state)@, Operation::Inr(r), 0, 0),
        ),
{
    if !state.accessible(r) {
        let hl: u32 = state.register_pair(RegisterPair::HL) as u32;
        return fail(state, hl, opcode);
    }
    let result = increment(state.get(r), state.condition_flags());
    write_result(state, opcode, r, result, next)
}

fn dcr(state: &mut State8080, opcode: u8, r: Register, next: u32) -> (outcome: StepOutcome)
    requires
        fetched(old(state)@, Operation::Dcr(r), next as int),
    ensures
        performs(
            old(state)@,
            final(state)@,
            outcome,
            opcode,
            counting_effect(old(state)@, Operation::Dcr(r), 0, 0),
        ),
{
    if !state.accessible(r) {
        let hl: u32 = state.register_pair(RegisterPair::HL) as u32;
        return fail(state, hl, opcode);
    }
    let result = decrement(state.get(r), state.condition_flags());
    write_result(state, opcode, r, result, next)
}

fn dad(state: &mut State8080, opcode: u8, rp: RegisterPair, next: u32) -> (outcome: StepOutcome)
    requires
        fetched(old(state)@, Operation::Dad(rp), next as int),
    ensures
        performs(
            old(state)@,
            final(state)@,
            outcome,
            opcode,
            counting_effect(old(state)@, Operation::Dad(rp), 0, 0),
        ),
{
    if !state.in_memory(next) {
        return fail(state, next, opcode);
    }
    let flags: ConditionFlags = state.condition_flags();
    let sum = wide_add(state.register_pair(RegisterPair::HL), state.register_pair(rp));
    state.set_register_pair(RegisterPair::HL, sum.value);
    state.set_condition_flags(ConditionFlags { carry: sum.carry, ..flags });
    state.jump(next);
    StepOutcome::Continue
}

fn execute_counting(
    state: &mut State8080,
    opcode: u8,
    operation: Operation,
    next: u32,
) -> (outcome: StepOutcome)
    requires
        fetched(old(state)@, operation, next as int),
        is_counting(operation),
    ensures
        performs(
            old(state)@,
            final(state)@,
            outcome,
            opcode,
            counting_effect(old(state)@, operation, 0, 0),
        ),
{
    match operation {
        Operation::Inx(rp) => {
            let value: u16 = wide_increment(state.register_pair(rp));
            write_pair(state, opcode, rp, value, next)
        },
        Operation::Dcx(rp) => {
            let value: u16 = wide_decrement(state.register_pair(rp));
            write_pair(state, opcode, rp, value, next)
        },
        Operation::Inr(r) => inr(state, opcode, r, next),
        Operation::Dcr(r) => dcr(state, opcode, r, next),
        Operation::Dad(rp) => dad(state, opcode, rp, next),
        _ => unreached(),
    }
}

/// The complement of the accumulator; the flags stay.
fn complement(a: u8, flags: ConditionFlags) -> (result: AluResult)
    ensures
        result == (AluResult { value: (255 - a) as u8, flags }),
{
    assert(!a == (255 - a) as u8) by (bit_vector);
    AluResult { value: !a, flags }
}

fn alu_register(
    state: &mut State8080,
    opcode: u8,
    op: AluOp,
    r: Register,
    next: u32,
) -> (outcome: StepOutcome)
    requires
        fetched(old(state)@, Operation::Alu(op, r), next as int),
    ensures
        performs(
            old(state)@,
            final(state)@,
            outcome,
            opcode,
            accumulator_effect(old(state)@, Operation::Alu(op, r), 0, 0),
        ),
{
    if !state.accessible(r) {
        let hl: u32 = state.register_pair(RegisterPair::HL) as u32;
        return fail(state, hl, opcode);
    }
    let result = alu(op, state.a(), state.get(r), state.condition_flags());
    write_accumulator(state, opcode, result, next)
}

fn execute_accumulator(
    state: &mut State8080,
    opcode: u8,
    operation: Operation,
    lo: u8,
    next: u32,
) -> (outcome: StepOutcome)
    requires
        fetched(old(state)@, operation, next as int),
        operands_are(operation, lo, 0),
        is_accumulator(operation),
    ensures
        performs(
            old(state)@,
            final(state)@,
            outcome,
            opcode,
            accumulator_effect(old(state)@, operation, lo, 0),
        ),
{
    let flags: ConditionFlags = state.condition_flags();
    let a: u8 = state.a();
    match operation {
        Operation::Rlc => {
            let rotated = rotate_left(a);
            let flags = ConditionFlags { carry: rotated.carry, ..flags };
            write_accumulator(state, opcode, AluResult { value: rotated.value, flags }, next)
        },
        Operation::Rrc => {
            let rotated = rotate_right(a);
            let flags = ConditionFlags { carry: rotated.carry, ..flags };
            write_accumulator(state, opcode, AluResult { value: rotated.value, flags }, next)
        },
        Operation::Ral => {
            let rotated = rotate_left_through_carry(a, flags.carry);
            let flags = ConditionFlags { carry: rotated.carry, ..flags };
            write_accumulator(state, opcode, AluResult { value: rotated.value, flags }, next)
        },
        Operation::Rar => {
            let rotated = rotate_right_through_carry(a, flags.carry);
            let flags = ConditionFlags { carry: rotated.carry, ..flags };
            write_accumulator(state, opcode, AluResult { value: rotated.value, flags }, next)
        },
        Operation::Daa => write_accumulator(state, opcode, decimal_adjust(a, flags), next),
        Operation::Cma => write_accumulator(state, opcode, complement(a, flags), next),
        Operation::Stc => {
            let flags = ConditionFlags { carry: true, ..flags };
            write_accumulator(state, opcode, AluResult { value: a, flags }, next)
        },
        Operation::Cmc => {
            let flags = ConditionFlags { carry: !flags.carry, ..flags };
            write_accumulator(state, opcode, AluResult { value: a, flags }, next)
        },
        Operation::Alu(op, r) => alu_register(state, opcode, op, r, next),
        Operation::AluImm(op) => write_accumulator(state, opcode, alu(op, a, lo, flags), next),
        _ => unreached(),
    }
}

/// Pushes `value` and goes on at `pc`.
fn push(state: &mut State8080, opcode: u8, value: u16, pc: u32) -> (outcome: StepOutcome)
    ensures
        performs(
            old(state)@,
            final(state)@,
            outcome,
            opcode,
            push_effect(old(state)@, value, pc as int),
        ),
{
    let top: u16 = wide_decrement(wide_decrement(state.sp()));
    if let Some(outside) = word_check(state, top as u32) {
        return fail(state, outside, opcode);
    }
    if !state.in_memory(pc) {
        return fail(state, pc, opcode);
    }
    state.store_word(top as u32, value);
    state.set_register_pair(RegisterPair::SP, top);
    state.jump(pc);
    StepOutcome::Continue
}

/// Pushes `return_address` and goes on at `target`.
fn call(state: &mut State8080, opcode: u8, return_address: u32, target: u32) -> (outcome:
    StepOutcome)
    requires
        return_address <= 0x10000,
    ensures
        performs(
            old(state)@,
            final(state)@,
            outcome,
            opcode,
            call_effect(old(state)@, return_address as int, target as int),
        ),
{
    let length: u32 = state.memory_len();
    if return_address >= length {
        return fail(state, return_address, opcode);
    }
    push(state, opcode, return_address as u16, target)
}

/// Pops the program counter.
fn ret(state: &mut State8080, opcode: u8) -> (outcome: StepOutcome)
    ensures
        performs(old(state)@, final(state)@, outcome, opcode, return_effect(old(state)@)),
{
    let sp: u16 = state.sp();
    if let Some(outside) = word_check(state, sp as u32) {
        return fail(state, outside, opcode);
    }
    let target: u32 = state.load_word(sp as u32) as u32;
    if !state.in_memory(target) {
        return fail(state, target, opcode);
    }
    state.set_register_pair(RegisterPair::SP, wide_increment(wide_increment(sp)));
    state.jump(target);
    StepOutcome::Continue
}

fn execute_branch(
    state: &mut State8080,
    opcode: u8,
    operation: Operation,
    lo: u8,
    hi: u8,
    next: u32,
) -> (outcome: StepOutcome)
    requires
        fetched(old(state)@, operation, next as int),
        operands_are(operation, lo, hi),
        is_branch(operation),
    ensures
        performs(
            old(state)@,
            final(state)@,
            outcome,
            opcode,
            branch_effect(old(state)@, operation, lo, hi),
        ),
{
    let direct: u32 = make_word(hi, lo) as u32;
    let flags: ConditionFlags = state.condition_flags();
    match operation {
        Operation::Jmp => go(state, opcode, direct),
        Operation::JmpIf(condition) => {
            if holds(condition, flags) {
                go(state, opcode, direct)
            } else {
                go(state, opcode, next)
            }
        },
        Operation::Call => call(state, opcode, next, direct),
        Operation::CallIf(condition) => {
            if holds(condition, flags) {
                call(state, opcode, next, direct)
            } else {
                go(state, opcode, next)
            }
        },
        Operation::Ret => ret(state, opcode),
        Operation::RetIf(condition) => {
            if holds(condition, flags) {
                ret(state, opcode)
            } else {
                go(state, opcode, next)
            }
        },
        Operation::Rst(n) => call(state, opcode, next, 8 * (n as u32)),
        Operation::Pchl => {
            let hl: u32 = state.register_pair(RegisterPair::HL) as u32;
            go(state, opcode, hl)
        },
        _ => unreached(),
    }
}

fn pop(state: &mut State8080, opcode: u8, pair: StackPair, next: u32) -> (outcome: StepOutcome)
    requires
        fetched(old(state)@, Operation::Pop(pair), next as int),
    ensures
        performs(
            old(state)@,
            final(state)@,
            outcome,
            opcode,
            control_effect(old(state)@, Operation::Pop(pair), 0, 0),
        ),
{
    let sp: u16 = state.sp();
    if let Some(outside) = word_check(state, sp as u32) {
        return fail(state, outside, opcode);
    }
    if !state.in_memory(next) {
        return fail(state, next, opcode);
    }
    let value: u16 = state.load_word(sp as u32);
    state.set_stack_pair(pair, value);
    state.set_register_pair(RegisterPair::SP, wide_increment(wide_increment(sp)));
    state.jump(next);
    StepOutcome::Continue
}

fn xthl(state: &mut State8080, opcode: u8, next: u32) -> (outcome: StepOutcome)
    requires
        fetched(old(state)@, Operation::Xthl, next as int),
    ensures
        performs(
            old(state)@,
            final(state)@,
            outcome,
            opcode,
            control_effect(old(state)@, Operation::Xthl, 0, 0),
        ),
{
    let sp: u16 = state.sp();
    if let Some(outside) = word_check(state, sp as u32) {
        return fail(state, outside, opcode);
    }
    if !state.in_memory(next) {
        return fail(state, next, opcode);
    }
    let value: u16 = state.load_word(sp as u32);
    let hl: u16 = state.register_pair(RegisterPair::HL);
    state.store_word(sp as u32, hl);
    state.set_register_pair(RegisterPair::HL, value);
    state.jump(next);
    StepOutcome::Continue
}

/// IN, OUT and HLT: nothing changes but the program counter and, for HLT,
/// the running flag; the outcome tells the caller what to do.
fn signal(state: &mut State8080, opcode: u8, operation: Operation, lo: u8, next: u32) -> (outcome:
    StepOutcome)
    requires
        fetched(old(state)@, operation, next as int),
        operation == Operation::In || operation == Operation::Out || operation == Operation::Hlt,
    ensures
        performs(
            old(state)@,
            final(state)@,
            outcome,
            opcode,
            control_effect(old(state)@, operation, lo, 0),
        ),
{
    if !state.in_memory(next) {
        return fail(state, next, opcode);
    }
    state.jump(next);
    match operation {
        Operation::In => StepOutcome::PortRead { port: lo },
        Operation::Out => StepOutcome::PortWrite { port: lo, value: state.a() },
        _ => {
            state.stop();
            StepOutcome::Halted
        },
    }
}

fn set_latch(state: &mut State8080, opcode: u8, enabled: bool, next: u32) -> (outcome: StepOutcome)
    ensures
        performs(
            old(state)@,
            final(state)@,
            outcome,
            opcode,
            done(Machine { int_enable: enabled, ..old(state)@ }, next as int),
        ),
{
    if !state.in_memory(next) {
        return fail(state, next, opcode);
    }
    state.set_int_enable(enabled);
    state.jump(next);
    StepOutcome::Continue
}

fn execute_control(
    state: &mut State8080,
    opcode: u8,
    operation: Operation,
    lo: u8,
    next: u32,
) -> (outcome: StepOutcome)
    requires
        fetched(old(state)@, operation, next as int),
        operands_are(operation, lo, 0),
        !is_transfer(operation),
        !is_counting(operation),
        !is_accumulator(operation),
        !is_branch(operation),
    ensures
        performs(
            old(state)@,
            final(state)@,
            outcome,
            opcode,
            control_effect(old(state)@, operation, lo, 0),
        ),
{
    match operation {
        Operation::Push(pair) => {
            let value: u16 = state.stack_pair(pair);
            push(state, opcode, value, next)
        },
        Operation::Pop(pair) => pop(state, opcode, pair, next),
        Operation::Xthl => xthl(state, opcode, next),
        Operation::In | Operation::Out | Operation::Hlt => signal(
            state,
            opcode,
            operation,
            lo,
            next,
        ),
        Operation::Ei => set_latch(state, opcode, true, next),
        Operation::Di => set_latch(state, opcode, false, next),
        _ => {
            state.stop();
            StepOutcome::Fatal(Fault::UndefinedOpcode { opcode })
        },
    }
}

/// Runs the instruction at the program counter: one fetch, one decode, one
/// execution. The new state and the outcome are those of `step`.
pub fn emulate_8080(state: &mut State8080) -> (outcome: StepOutcome)
    ensures
        old(state)@.wf(),
        final(state)@ == step(old(state)@).machine,
        outcome == step(old(state)@).outcome,
{
    let length: u32 = state.memory_len();
    if !state.is_running() {
        return StepOutcome::Halted;
    }
    let pc: u32 = state.pc() as u32;
    let opcode: u8 = state.load_byte(pc);
    let descriptor = lookup(opcode);
    let operation = descriptor.operation;
    let operands: u32 = descriptor.operand_length as u32;
    if pc + operands >= length {
        return fail(state, length, opcode);
    }
    let lo: u8 = if operands >= 1 {
        state.load_byte(pc + 1)
    } else {
        0
    };
    let hi: u8 = if operands >= 2 {
        state.load_byte(pc + 2)
    } else {
        0
    };
    let next: u32 = pc + 1 + operands;
    match operation {
        Operation::Nop
        | Operation::Lxi(_)
        | Operation::Stax(_)
        | Operation::Ldax(_)
        | Operation::Shld
        | Operation::Lhld
        | Operation::Sta
        | Operation::Lda
        | Operation::Mvi(_)
        | Operation::Mov(_, _)
        | Operation::Xchg
        | Operation::Sphl => execute_transfer(state, opcode, operation, lo, hi, next),
        Operation::Inx(_)
        | Operation::Dcx(_)
        | Operation::Inr(_)
        | Operation::Dcr(_)
        | Operation::Dad(_) => execute_counting(state, opcode, operation, next),
        Operation::Rlc
        | Operation::Rrc
        | Operation::Ral
        | Operation::Rar
        | Operation::Daa
        | Operation::Cma
        | Operation::Stc
        | Operation::Cmc
        | Operation::Alu(_, _)
        | Operation::AluImm(_) => execute_accumulator(state, opcode, operation, lo, next),
        Operation::Jmp
        | Operation::JmpIf(_)
        | Operation::Call
        | Operation::CallIf(_)
        | Operation::Ret
        | Operation::RetIf(_)
        | Operation::Rst(_)
        | Operation::Pchl => execute_branch(state, opcode, operation, lo, hi, next),
        _ => execute_control(state, opcode, operation, lo, next),
    }
}

/// The port hook's answer that it knows no such port.
#[derive(Clone, Copy, Debug, PartialEq, Eq, Structural)]
pub struct PortRejected;

/// The ports of the machine, as the embedding application provides them.
/// The executor calls `read_port` for IN and `write_port` for OUT and knows
/// nothing of what a port means.
pub trait PortHook {
    fn read_port(&mut self, port: u8) -> Result<u8, PortRejected>;

    fn write_port(&mut self, port: u8, value: u8) -> Result<(), PortRejected>;
}

/// The state after a port has answered an IN with `reply`: the byte is in
/// the accumulator, or the machine has stopped because the port was rejected.
pub open spec fn after_port_read(
    m: Machine,
    port: u8,
    reply: Result<u8, PortRejected>,
) -> Transition {
    match reply {
        Ok(value) => Transition {
            machine: Machine { a: value, ..m },
            outcome: StepOutcome::Continue,
        },
        Err(_) => fatal(m, Fault::InvalidPort { port }),
    }
}

/// The state after a port has answered an OUT with `reply`: unchanged, or
/// stopped because the port was rejected.
pub open spec fn after_port_write(
    m: Machine,
    port: u8,
    reply: Result<(), PortRejected>,
) -> Transition {
    match reply {
        Ok(_) => Transition { machine: m, outcome: StepOutcome::Continue },
        Err(_) => fatal(m, Fault::InvalidPort { port }),
    }
}

/// Completes an IN whose step came back as `PortRead`: hands the port's
/// answer to the machine.
pub fn finish_port_read(
    state: &mut State8080,
    port: u8,
    reply: Result<u8, PortRejected>,
) -> (outcome: StepOutcome)
    ensures
        final(state)@ == after_port_read(old(state)@, port, reply).machine,
        outcome == after_port_read(old(state)@, port, reply).outcome,
{
    match reply {
        Ok(value) => {
            state.put(Register::A, value);
            StepOutcome::Continue
        },
        Err(_) => {
            state.stop();
            StepOutcome::Fatal(Fault::InvalidPort { port })
        },
    }
}

/// Completes an OUT whose step came back as `PortWrite`: hands the port's
/// answer to the machine.
pub fn finish_port_write(
    state: &mut State8080,
    port: u8,
    reply: Result<(), PortRejected>,
) -> (outcome: StepOutcome)
    ensures
        final(state)@ == after_port_write(old(state)@, port, reply).machine,
        outcome == after_port_write(old(state)@, port, reply).outcome,
{
    match reply {
        Ok(_) => StepOutcome::Continue,
        Err(_) => {
            state.stop();
            StepOutcome::Fatal(Fault::InvalidPort { port })
        },
    }
}

/// What a step with ports may come to, whatever the ports answer: a step
/// that asks for no port is that step; an IN ends with some byte in the
/// accumulator or with the port rejected; an OUT ends unchanged or with the
/// port rejected.
pub open spec fn step_with_ports_allows(
    before: Machine,
    after: Machine,
    outcome: StepOutcome,
) -> bool {
    let plain = step(before);
    match plain.outcome {
        StepOutcome::PortRead { port } => exists|reply: Result<u8, PortRejected>|
            #![auto]
            after == after_port_read(plain.machine, port, reply).machine && outcome
                == after_port_read(plain.machine, port, reply).outcome,
        StepOutcome::PortWrite { port, value } => exists|reply: Result<(), PortRejected>|
            #![auto]
            after == after_port_write(plain.machine, port, reply).machine && outcome
                == after_port_write(plain.machine, port, reply).outcome,
        _ => after == plain.machine && outcome == plain.outcome,
    }
}

/// Runs one instruction and serves its port request, if it makes one, from `hook`.
pub fn emulate_with_ports<H: PortHook>(state: &mut State8080, hook: &mut H) -> (outcome:
    StepOutcome)
    ensures
        step_with_ports_allows(old(state)@, final(state)@, outcome),
        !(outcome is PortRead),
        !(outcome is PortWrite),
{
    match emulate_8080(state) {
        StepOutcome::PortRead { port } => {
            let reply = hook.read_port(port);
            finish_port_read(state, port, reply)
        },
        StepOutcome::PortWrite { port, value } => {
            let reply = hook.write_port(port, value);
            finish_port_write(state, port, reply)
        },
        outcome => outcome,
    }
}

/// What became of an interrupt request.
#[derive(Clone, Copy, Debug, PartialEq, Eq, Structural)]
pub enum InterruptOutcome {
    /// The machine has called the restart address; interrupts are now disabled.
    Delivered,
    /// Interrupts are disabled; nothing changed.
    Disabled,
    /// The machine is not running; nothing changed.
    Halted,
    /// The call would have left memory; the machine stopped.
    Fatal(Fault),
}

/// A state and what became of the interrupt request.
pub struct InterruptTransition {
    pub machine: Machine,
    pub outcome: InterruptOutcome,
}

/// The opcode of RST `n`.
pub open spec fn restart_opcode(n: u8) -> u8 {
    (0xc7 + 8 * n) as u8
}

/// An interrupt request for restart `n`. A machine that runs with
/// interrupts enabled calls address `8 * n` as RST `n` would, with the
/// program counter as the return address, and disables interrupts. Any
/// other machine stays as it is.
pub open spec fn interrupt(m: Machine, n: u8) -> InterruptTransition {
    if !m.running {
        InterruptTransition { machine: m, outcome: InterruptOutcome::Halted }
    } else if !m.int_enable {
        InterruptTransition { machine: m, outcome: InterruptOutcome::Disabled }
    } else {
        let called = commit(
            m,
            restart_opcode(n),
            push_effect(Machine { int_enable: false, ..m }, m.pc, 8 * n),
        );
        InterruptTransition {
            machine: called.machine,
            outcome: match called.outcome {
                StepOutcome::Fatal(fault) => InterruptOutcome::Fatal(fault),
                _ => InterruptOutcome::Delivered,
            },
        }
    }
}

/// Delivers an interrupt request for restart `n` between two steps.
pub fn deliver_interrupt(state: &mut State8080, n: u8) -> (outcome: InterruptOutcome)
    requires
        n < 8,
    ensures
        final(state)@ == interrupt(old(state)@, n).machine,
        outcome == interrupt(old(state)@, n).outcome,
{
    if !state.is_running() {
        return InterruptOutcome::Halted;
    }
    if !state.int_enable() {
        return InterruptOutcome::Disabled;
    }
    let opcode: u8 = 0xc7 + 8 * n;
    let target: u32 = 8 * (n as u32);
    let pc: u16 = state.pc();
    let top: u16 = wide_decrement(wide_decrement(state.sp()));
    if let Some(outside) = word_check(state, top as u32) {
        state.stop();
        return InterruptOutcome::Fatal(
            Fault::OutOfBoundsMemoryAccess { address: outside, opcode },
        );
    }
    if !state.in_memory(target) {
        state.stop();
        return InterruptOutcome::Fatal(Fault::OutOfBoundsMemoryAccess { address: target, opcode });
    }
    state.set_int_enable(false);
    state.store_word(top as u32, pc);
    state.set_register_pair(RegisterPair::SP, top);
    state.jump(target);
    InterruptOutcome::Delivered
}

} // verus!
