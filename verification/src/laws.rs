//! What holds of every step, stated over `step` and proved from its definition.

use crate::decoder::{decode, DecodeError};
use crate::executor::{
    accumulator_effect, branch_effect, condition_holds, control_effect, counting_effect, effect,
    is_accumulator, is_branch, is_counting, is_transfer, next_pc, operand, popped_sp, pushed_sp,
    step, transfer_effect, Effect,
    Fault, StepOutcome,
};
use crate::flags::{
    alu_add_spec, decrement_spec, increment_spec, lemma_add_flags, lemma_flags_round_trip,
    logic_result, pack_flags_spec, wide_decrement_spec, wide_increment_spec, wrap_byte,
    ConditionFlags,
};
use crate::instruction::{operand_length_of, operation_of, AluOp, Operation, Register, StackPair};
use crate::state::{lemma_word_halves, word, Machine};
use vstd::prelude::*;

verus! {

/// An effect leaves the length of memory as it is.
pub open spec fn keeps_memory_length(m: Machine, effect: Effect) -> bool {
    effect matches Effect::Done { machine, .. } ==> machine.memory.len() == m.memory.len()
}

/// An effect reports nothing as unimplemented.
pub open spec fn is_implemented(effect: Effect) -> bool {
    effect matches Effect::Done { outcome, .. } ==> !(outcome is Unimplemented)
}

proof fn lemma_transfer_effect(m: Machine, operation: Operation, lo: u8, hi: u8)
    ensures
        keeps_memory_length(m, transfer_effect(m, operation, lo, hi)),
        is_implemented(transfer_effect(m, operation, lo, hi)),
{
}

proof fn lemma_counting_effect(m: Machine, operation: Operation, lo: u8, hi: u8)
    ensures
        keeps_memory_length(m, counting_effect(m, operation, lo, hi)),
        is_implemented(counting_effect(m, operation, lo, hi)),
{
}

proof fn lemma_accumulator_effect(m: Machine, operation: Operation, lo: u8, hi: u8)
    ensures
        keeps_memory_length(m, accumulator_effect(m, operation, lo, hi)),
        is_implemented(accumulator_effect(m, operation, lo, hi)),
{
}

proof fn lemma_branch_effect(m: Machine, operation: Operation, lo: u8, hi: u8)
    ensures
        keeps_memory_length(m, branch_effect(m, operation, lo, hi)),
        is_implemented(branch_effect(m, operation, lo, hi)),
{
}

proof fn lemma_control_effect(m: Machine, operation: Operation, lo: u8, hi: u8)
    ensures
        keeps_memory_length(m, control_effect(m, operation, lo, hi)),
        is_implemented(control_effect(m, operation, lo, hi)),
{
}

/// A step keeps the state well formed: memory keeps its length and the
/// program counter stays inside it. No step reports an instruction as
/// unimplemented: every byte either runs or is undefined.
pub proof fn lemma_step_keeps_well_formed(m: Machine)
    requires
        m.wf(),
    ensures
        step(m).machine.wf(),
        step(m).machine.memory.len() == m.memory.len(),
        !(step(m).outcome is Unimplemented),
{
    let operation = operation_of(m.memory[m.pc as int]);
    let length = operand_length_of(operation) as int;
    let lo = operand(m, 1, length);
    let hi = operand(m, 2, length);
    lemma_transfer_effect(m, operation, lo, hi);
    lemma_counting_effect(m, operation, lo, hi);
    lemma_accumulator_effect(m, operation, lo, hi);
    lemma_branch_effect(m, operation, lo, hi);
    lemma_control_effect(m, operation, lo, hi);
}

/// A step that ends in a fault changes nothing but the running flag.
pub proof fn lemma_fault_changes_nothing(m: Machine)
    requires
        m.wf(),
        step(m).outcome is Fatal,
    ensures
        step(m).machine == (Machine { running: false, ..m }),
{
    let operation = operation_of(m.memory[m.pc as int]);
    let length = operand_length_of(operation) as int;
    let lo = operand(m, 1, length);
    let hi = operand(m, 2, length);
    lemma_transfer_effect(m, operation, lo, hi);
    lemma_counting_effect(m, operation, lo, hi);
    lemma_accumulator_effect(m, operation, lo, hi);
    lemma_branch_effect(m, operation, lo, hi);
    lemma_control_effect(m, operation, lo, hi);
}

/// A machine that is not running stays exactly as it is.
pub proof fn lemma_halted_machine_stays(m: Machine)
    requires
        !m.running,
    ensures
        step(m).machine == m,
        step(m).outcome == StepOutcome::Halted,
{
}

/// Two pushes down and two pops up bring the stack pointer back.
pub proof fn lemma_stack_pointer_round_trip(m: Machine)
    ensures
        popped_sp(Machine { sp: pushed_sp(m), ..m }) == m.sp,
{
    reveal(wide_decrement_spec);
    reveal(wide_increment_spec);
}

/// PUSH PSW directly followed by POP PSW gives the accumulator, all five
/// flags and the stack pointer back. "Directly followed" is read after the
/// push: the byte at the program counter is then POP PSW.
pub proof fn lemma_push_pop_psw_round_trip(m: Machine)
    requires
        m.wf(),
        m.running,
        m.memory[m.pc as int] == 0xf5,
        step(m).outcome == StepOutcome::Continue,
        step(m).machine.memory[step(m).machine.pc as int] == 0xf1,
        step(step(m).machine).outcome == StepOutcome::Continue,
    ensures
        step(step(m).machine).machine.a == m.a,
        step(step(m).machine).machine.flags == m.flags,
        step(step(m).machine).machine.sp == m.sp,
{
    let pushed = step(m).machine;
    let top = pushed_sp(m) as int;
    let psw = word(m.a, pack_flags_spec(m.flags));
    assert(operation_of(0xf5) == Operation::Push(StackPair::PSW));
    assert(operation_of(0xf1) == Operation::Pop(StackPair::PSW));
    assert(effect(m, Operation::Push(StackPair::PSW), 0, 0) == control_effect(
        m,
        Operation::Push(StackPair::PSW),
        0,
        0,
    ));
    assert(pushed.sp == pushed_sp(m));
    assert(pushed.memory == m.store_word(top, psw).memory);
    assert(pushed.a == m.a);
    assert(pushed.flags == m.flags);
    assert(pushed.running);
    assert(effect(pushed, Operation::Pop(StackPair::PSW), 0, 0) == control_effect(
        pushed,
        Operation::Pop(StackPair::PSW),
        0,
        0,
    ));
    lemma_word_halves(psw, m.a, pack_flags_spec(m.flags));
    assert(pushed.load_word(top) == psw);
    lemma_flags_round_trip(m.flags);
    lemma_stack_pointer_round_trip(m);
}

/// ADD with the accumulator holding `a` and the operand holding `b` leaves
/// the low eight bits of `a + b` in the accumulator, sets zero exactly when
/// those bits are clear, carry exactly when `a + b` exceeds `0xff`, and
/// auxiliary carry exactly when the sum of the low nibbles exceeds `0xf`.
pub proof fn lemma_add_flag_law(m: Machine, r: Register)
    requires
        m.wf(),
        m.running,
        operation_of(m.memory[m.pc as int]) == Operation::Alu(AluOp::Add, r),
        step(m).outcome == StepOutcome::Continue,
    ensures
        step(m).machine.a == wrap_byte(m.a + m.register(r)),
        step(m).machine.flags.zero <==> (m.a as u16 + m.register(r) as u16) as u16 & 0xff == 0,
        step(m).machine.flags.carry <==> m.a + m.register(r) > 0xff,
        step(m).machine.flags.aux_carry <==> (m.a & 0xf) + (m.register(r) & 0xf) > 0xf,
{
    let operation = Operation::Alu(AluOp::Add, r);
    assert(effect(m, operation, 0, 0) == accumulator_effect(m, operation, 0, 0));
    assert(m.register_accessible(r));
    assert(step(m).machine.flags == alu_add_spec(m.a, m.register(r), false).flags);
    assert(step(m).machine.a == alu_add_spec(m.a, m.register(r), false).value);
    lemma_add_flags(m.a, m.register(r));
    reveal(alu_add_spec);
}

/// The decoder and the executor agree on how long an instruction is: where
/// the decoder finds an instruction at the program counter, the executor
/// finds its operand bytes and, unless the instruction branches or faults,
/// goes on right behind the bytes that the decoder counted. Where the
/// decoder finds the instruction truncated, the executor stops.
pub proof fn lemma_decoder_and_executor_agree(m: Machine)
    requires
        m.wf(),
        m.running,
    ensures
        match decode(m.memory, m.pc as int) {
            Ok(record) => {
                &&& record.address == m.pc
                &&& m.pc + record.bytes_consumed == next_pc(
                    m,
                    operation_of(m.memory[m.pc as int]),
                )
                &&& m.in_memory(m.pc + record.bytes_consumed - 1)
            },
            Err(error) => {
                &&& error == DecodeError::TruncatedInstruction {
                    address: m.pc,
                    opcode: m.memory[m.pc as int],
                }
                &&& step(m).outcome == StepOutcome::Fatal(
                    Fault::OutOfBoundsMemoryAccess {
                        address: m.memory.len() as u32,
                        opcode: m.memory[m.pc as int],
                    },
                )
            },
        },
{
}

/// Whether `operation` is a logic operation on the accumulator.
pub open spec fn is_logic(operation: Operation) -> bool {
    match operation {
        Operation::Alu(op, _) | Operation::AluImm(op) => op == AluOp::And || op == AluOp::Xor || op
            == AluOp::Or,
        _ => false,
    }
}

/// Whether `operation` changes no flag but carry.
pub open spec fn touches_carry_only(operation: Operation) -> bool {
    match operation {
        Operation::Dad(_)
        | Operation::Rlc
        | Operation::Rrc
        | Operation::Ral
        | Operation::Rar
        | Operation::Stc
        | Operation::Cmc => true,
        _ => false,
    }
}

/// Whether `operation` changes no flag at all.
pub open spec fn touches_no_flag(operation: Operation) -> bool {
    match operation {
        Operation::Inx(_) | Operation::Dcx(_) | Operation::Cma => true,
        Operation::Inr(_) | Operation::Dcr(_) | Operation::Dad(_) => false,
        Operation::Rlc | Operation::Rrc | Operation::Ral | Operation::Rar => false,
        Operation::Daa | Operation::Stc | Operation::Cmc => false,
        Operation::Alu(_, _) | Operation::AluImm(_) => false,
        Operation::Pop(pair) => pair != StackPair::PSW,
        _ => true,
    }
}

/// The flags of `after` differ from those of `before` only where
/// `operation` is documented to affect them.
pub open spec fn flags_as_documented(
    operation: Operation,
    before: ConditionFlags,
    after: ConditionFlags,
) -> bool {
    &&& touches_no_flag(operation) ==> after == before
    &&& touches_carry_only(operation) ==> after == (ConditionFlags { carry: after.carry, ..before })
    &&& operation is Inr || operation is Dcr ==> after.carry == before.carry
    &&& is_logic(operation) ==> after.aux_carry == before.aux_carry
}

/// The flags that an effect leaves are as documented, and a logic operation clears carry.
pub open spec fn effect_flags_as_documented(
    m: Machine,
    operation: Operation,
    effect: Effect,
) -> bool {
    effect matches Effect::Done { machine, .. } ==> {
        &&& flags_as_documented(operation, m.flags, machine.flags)
        &&& is_logic(operation) ==> !machine.flags.carry
    }
}

proof fn lemma_transfer_flags(m: Machine, operation: Operation, lo: u8, hi: u8)
    requires
        is_transfer(operation),
    ensures
        effect_flags_as_documented(m, operation, transfer_effect(m, operation, lo, hi)),
{
}

proof fn lemma_counting_flags(m: Machine, operation: Operation, lo: u8, hi: u8)
    requires
        is_counting(operation),
    ensures
        effect_flags_as_documented(m, operation, counting_effect(m, operation, lo, hi)),
{
    reveal(increment_spec);
    reveal(decrement_spec);
}

proof fn lemma_accumulator_flags(m: Machine, operation: Operation, lo: u8, hi: u8)
    requires
        is_accumulator(operation),
    ensures
        effect_flags_as_documented(m, operation, accumulator_effect(m, operation, lo, hi)),
{
    reveal(logic_result);
}

proof fn lemma_branch_flags(m: Machine, operation: Operation, lo: u8, hi: u8)
    requires
        is_branch(operation),
    ensures
        effect_flags_as_documented(m, operation, branch_effect(m, operation, lo, hi)),
{
}

proof fn lemma_control_flags(m: Machine, operation: Operation, lo: u8, hi: u8)
    requires
        !is_transfer(operation),
        !is_counting(operation),
        !is_accumulator(operation),
        !is_branch(operation),
    ensures
        effect_flags_as_documented(m, operation, control_effect(m, operation, lo, hi)),
{
}

/// A flag changes only where the instruction is documented to affect it:
/// loads, stores, moves, branches, the stack (but POP PSW), the ports, the
/// interrupt latch, HLT, INX, DCX and CMA leave all five flags alone; DAD,
/// the rotates, STC and CMC change carry only; INR and DCR leave carry
/// alone; the logic operations leave the auxiliary carry alone and, where
/// they run, clear carry.
pub proof fn lemma_flags_change_only_where_documented(m: Machine)
    requires
        m.wf(),
    ensures
        flags_as_documented(
            operation_of(m.memory[m.pc as int]),
            m.flags,
            step(m).machine.flags,
        ),
        is_logic(operation_of(m.memory[m.pc as int])) && step(m).outcome == StepOutcome::Continue
            ==> !step(m).machine.flags.carry,
{
    let operation = operation_of(m.memory[m.pc as int]);
    let length = operand_length_of(operation) as int;
    let lo = operand(m, 1, length);
    let hi = operand(m, 2, length);
    if is_transfer(operation) {
        lemma_transfer_flags(m, operation, lo, hi);
    } else if is_counting(operation) {
        lemma_counting_flags(m, operation, lo, hi);
    } else if is_accumulator(operation) {
        lemma_accumulator_flags(m, operation, lo, hi);
    } else if is_branch(operation) {
        lemma_branch_flags(m, operation, lo, hi);
    } else {
        lemma_control_flags(m, operation, lo, hi);
    }
}

/// A conditional jump, call or return whose condition does not hold goes on
/// right behind its own bytes: three for a jump or a call, one for a return.
pub proof fn lemma_untaken_branch_advances(m: Machine)
    requires
        m.wf(),
        m.running,
        step(m).outcome == StepOutcome::Continue,
    ensures
        match operation_of(m.memory[m.pc as int]) {
            Operation::JmpIf(condition) | Operation::CallIf(condition) => !condition_holds(
                condition,
                m.flags,
            ) ==> step(m).machine == (Machine { pc: (m.pc + 3) as u16, ..m }),
            Operation::RetIf(condition) => !condition_holds(condition, m.flags) ==> step(m).machine
                == (Machine { pc: (m.pc + 1) as u16, ..m }),
            _ => true,
        },
{
}

} // verus!
