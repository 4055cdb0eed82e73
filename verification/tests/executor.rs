use i8080::executor::{
    deliver_interrupt, emulate_8080, emulate_with_ports, finish_port_read, finish_port_write, Fault,
    InterruptOutcome, PortHook, PortRejected, StepOutcome,
};
use i8080::flags::{pack_flags, ConditionFlags};
use i8080::instruction::{Register, RegisterPair};
use i8080::state::State8080;

fn machine(program: &[u8]) -> State8080 {
    let mut state = State8080::new();
    state.load(program, 0).unwrap();
    state
}

fn small(memory: &[u8]) -> State8080 {
    State8080::with_memory(memory.to_vec(), 0).unwrap()
}

fn flags(zero: bool, sign: bool, parity: bool, carry: bool, aux_carry: bool) -> ConditionFlags {
    ConditionFlags { zero, sign, parity, carry, aux_carry }
}

fn clear() -> ConditionFlags {
    flags(false, false, false, false, false)
}

fn out_of_bounds(address: u32, opcode: u8) -> StepOutcome {
    StepOutcome::Fatal(Fault::OutOfBoundsMemoryAccess { address, opcode })
}

fn run(state: &mut State8080, steps: usize) {
    for _ in 0..steps {
        assert_eq!(emulate_8080(state), StepOutcome::Continue);
    }
}

struct Ports {
    inputs: Vec<u8>,
    written: Vec<(u8, u8)>,
}

impl PortHook for Ports {
    fn read_port(&mut self, port: u8) -> Result<u8, PortRejected> {
        if port == 0xff {
            Err(PortRejected)
        } else {
            Ok(self.inputs[port as usize])
        }
    }

    fn write_port(&mut self, port: u8, value: u8) -> Result<(), PortRejected> {
        if port == 0xff {
            Err(PortRejected)
        } else {
            self.written.push((port, value));
            Ok(())
        }
    }
}

#[test]
fn mvi_b_sets_b_and_advances_pc_by_two() {
    let mut state = machine(&[0x06, 0x42]);
    assert_eq!(emulate_8080(&mut state), StepOutcome::Continue);
    assert_eq!(state.b(), 0x42);
    assert_eq!(state.pc(), 2);
    assert_eq!(state.a(), 0);
    assert_eq!(state.condition_flags(), clear());
}

#[test]
fn mvi_a_ff_then_inr_a_wraps_to_zero() {
    let mut state = machine(&[0x3e, 0xff, 0x3c]);
    assert_eq!(emulate_8080(&mut state), StepOutcome::Continue);
    assert_eq!(state.a(), 0xff);
    assert_eq!(state.pc(), 2);
    assert_eq!(emulate_8080(&mut state), StepOutcome::Continue);
    assert_eq!(state.a(), 0x00);
    assert!(state.condition_flags().zero);
    assert!(!state.condition_flags().sign);
    assert!(state.condition_flags().aux_carry);
    assert!(state.condition_flags().parity);
    assert!(!state.condition_flags().carry);
    assert_eq!(state.pc(), 3);
}

#[test]
fn push_b_stores_the_pair_below_the_stack_pointer() {
    let mut state = machine(&[0xc5]);
    state.set_register(Register::B, 0x12);
    state.set_register(Register::C, 0x34);
    state.set_register_pair(RegisterPair::SP, 0xfff0);
    assert_eq!(emulate_8080(&mut state), StepOutcome::Continue);
    assert_eq!(state.sp(), 0xffee);
    assert_eq!(state.read_memory(0xffef), Some(0x12));
    assert_eq!(state.read_memory(0xffee), Some(0x34));
    assert_eq!(state.read_memory(0xfff0), Some(0x00));
    assert_eq!(state.read_memory(0xfff1), Some(0x00));
    assert_eq!(state.pc(), 1);
}

#[test]
fn push_psw_then_pop_psw_restores_a_and_every_flag_set() {
    for bits in 0..32u8 {
        for a in [0x00u8, 0x5a, 0xff] {
            let saved =
                flags(bits & 1 != 0, bits & 2 != 0, bits & 4 != 0, bits & 8 != 0, bits & 16 != 0);
            let mut state = machine(&[0xf5, 0xf1]);
            state.set_register(Register::A, a);
            state.set_condition_flags(saved);
            state.set_register_pair(RegisterPair::SP, 0x2400);
            run(&mut state, 2);
            assert_eq!(state.a(), a);
            assert_eq!(state.condition_flags(), saved);
            assert_eq!(state.sp(), 0x2400);
            assert_eq!(state.pc(), 2);
        }
    }
}

#[test]
fn push_psw_stores_a_over_the_flag_byte() {
    let mut state = machine(&[0xf5]);
    let saved = flags(true, false, true, true, false);
    state.set_register(Register::A, 0x9c);
    state.set_condition_flags(saved);
    state.set_register_pair(RegisterPair::SP, 0x2400);
    run(&mut state, 1);
    assert_eq!(state.read_memory(0x23ff), Some(0x9c));
    assert_eq!(state.read_memory(0x23fe), Some(pack_flags(saved)));
    assert_eq!(state.read_memory(0x23fe), Some(0x47));
}

#[test]
fn pop_psw_restores_what_was_pushed_after_a_and_flags_changed() {
    let mut state = machine(&[0xf5, 0xaf, 0xf1]);
    let saved = flags(false, true, false, true, true);
    state.set_register(Register::A, 0x77);
    state.set_condition_flags(saved);
    state.set_register_pair(RegisterPair::SP, 0x2400);
    run(&mut state, 2);
    assert_eq!(state.a(), 0);
    assert_eq!(state.condition_flags(), flags(true, false, true, false, true));
    run(&mut state, 1);
    assert_eq!(state.a(), 0x77);
    assert_eq!(state.condition_flags(), saved);
}

#[test]
fn add_instruction_sets_flags_for_every_pair_of_operands() {
    for a in 0..=255u16 {
        for b in 0..=255u16 {
            let mut state = small(&[0x80, 0x00]);
            state.set_register(Register::A, a as u8);
            state.set_register(Register::B, b as u8);
            assert_eq!(emulate_8080(&mut state), StepOutcome::Continue);
            assert_eq!(state.a() as u16, (a + b) & 0xff);
            assert_eq!(state.condition_flags().zero, (a + b) & 0xff == 0);
            assert_eq!(state.condition_flags().carry, a + b > 0xff);
            assert_eq!(state.condition_flags().aux_carry, (a & 0xf) + (b & 0xf) > 0xf);
            assert_eq!(state.b(), b as u8);
        }
    }
}

#[test]
fn dcr_b_wraps_from_zero_to_ff() {
    let mut state = machine(&[0x05]);
    state.set_condition_flags(flags(true, false, false, true, false));
    assert_eq!(emulate_8080(&mut state), StepOutcome::Continue);
    assert_eq!(state.b(), 0xff);
    assert_eq!(state.condition_flags(), flags(false, true, true, true, true));
    assert_eq!(state.pc(), 1);
}

#[test]
fn lxi_b_loads_c_from_the_first_and_b_from_the_second_operand_byte() {
    let mut state = machine(&[0x01, 0x34, 0x12]);
    run(&mut state, 1);
    assert_eq!(state.c(), 0x34);
    assert_eq!(state.b(), 0x12);
    assert_eq!(state.pc(), 3);
}

#[test]
fn lxi_loads_every_pair() {
    let mut state = machine(&[0x11, 0x22, 0x11, 0x21, 0x44, 0x33, 0x31, 0x66, 0x55]);
    run(&mut state, 3);
    assert_eq!(state.register_pair(RegisterPair::DE), 0x1122);
    assert_eq!(state.register_pair(RegisterPair::HL), 0x3344);
    assert_eq!(state.sp(), 0x5566);
    assert_eq!(state.pc(), 9);
}

#[test]
fn nop_only_advances() {
    let mut state = machine(&[0x00]);
    let before = state.clone();
    run(&mut state, 1);
    assert_eq!(state.pc(), 1);
    assert!(state.set_pc(0));
    assert_eq!(state, before);
}

#[test]
fn mov_copies_between_registers_and_memory() {
    let mut state = machine(&[0x41, 0x70, 0x5e, 0x7f]);
    state.set_register(Register::C, 0x99);
    state.set_register_pair(RegisterPair::HL, 0x3000);
    run(&mut state, 1);
    assert_eq!(state.b(), 0x99);
    run(&mut state, 1);
    assert_eq!(state.read_memory(0x3000), Some(0x99));
    state.set_register(Register::M, 0x21);
    run(&mut state, 1);
    assert_eq!(state.e(), 0x21);
    run(&mut state, 1);
    assert_eq!(state.pc(), 4);
    assert_eq!(state.condition_flags(), clear());
}

#[test]
fn mvi_m_stores_at_hl() {
    let mut state = machine(&[0x36, 0xab]);
    state.set_register_pair(RegisterPair::HL, 0x4000);
    run(&mut state, 1);
    assert_eq!(state.read_memory(0x4000), Some(0xab));
    assert_eq!(state.pc(), 2);
}

#[test]
fn sta_and_lda_use_the_direct_address() {
    let mut state = machine(&[0x32, 0x00, 0x50, 0x3e, 0x00, 0x3a, 0x00, 0x50]);
    state.set_register(Register::A, 0xc3);
    run(&mut state, 1);
    assert_eq!(state.read_memory(0x5000), Some(0xc3));
    run(&mut state, 1);
    assert_eq!(state.a(), 0);
    run(&mut state, 1);
    assert_eq!(state.a(), 0xc3);
    assert_eq!(state.pc(), 8);
}

#[test]
fn shld_and_lhld_move_l_first() {
    let mut state = machine(&[0x22, 0x00, 0x50, 0x21, 0x00, 0x00, 0x2a, 0x00, 0x50]);
    state.set_register_pair(RegisterPair::HL, 0xae29);
    run(&mut state, 1);
    assert_eq!(state.read_memory(0x5000), Some(0x29));
    assert_eq!(state.read_memory(0x5001), Some(0xae));
    run(&mut state, 1);
    assert_eq!(state.register_pair(RegisterPair::HL), 0);
    run(&mut state, 1);
    assert_eq!(state.register_pair(RegisterPair::HL), 0xae29);
}

#[test]
fn stax_and_ldax_use_bc_and_de() {
    let mut state = machine(&[0x02, 0x12, 0x3e, 0x00, 0x0a, 0x3e, 0x00, 0x1a]);
    state.set_register(Register::A, 0x5d);
    state.set_register_pair(RegisterPair::BC, 0x6000);
    state.set_register_pair(RegisterPair::DE, 0x6100);
    run(&mut state, 2);
    assert_eq!(state.read_memory(0x6000), Some(0x5d));
    assert_eq!(state.read_memory(0x6100), Some(0x5d));
    state.set_register_pair(RegisterPair::HL, 0x6100);
    state.set_register(Register::M, 0x11);
    run(&mut state, 2);
    assert_eq!(state.a(), 0x5d);
    run(&mut state, 2);
    assert_eq!(state.a(), 0x11);
}

#[test]
fn xchg_swaps_hl_and_de() {
    let mut state = machine(&[0xeb]);
    state.set_register_pair(RegisterPair::HL, 0x00ff);
    state.set_register_pair(RegisterPair::DE, 0x3355);
    run(&mut state, 1);
    assert_eq!(state.register_pair(RegisterPair::HL), 0x3355);
    assert_eq!(state.register_pair(RegisterPair::DE), 0x00ff);
}

#[test]
fn sphl_and_pchl_copy_hl() {
    let mut state = machine(&[0xf9, 0xe9]);
    state.set_register_pair(RegisterPair::HL, 0x506c);
    run(&mut state, 1);
    assert_eq!(state.sp(), 0x506c);
    assert_eq!(state.pc(), 1);
    run(&mut state, 1);
    assert_eq!(state.pc(), 0x506c);
}

#[test]
fn xthl_swaps_hl_with_the_top_of_the_stack() {
    let mut state = machine(&[0xe3]);
    state.set_register_pair(RegisterPair::SP, 0x10ad);
    state.set_register_pair(RegisterPair::HL, 0x0b3c);
    state.load(&[0xf0, 0x0d], 0x10ad).unwrap();
    run(&mut state, 1);
    assert_eq!(state.register_pair(RegisterPair::HL), 0x0df0);
    assert_eq!(state.read_memory(0x10ad), Some(0x3c));
    assert_eq!(state.read_memory(0x10ae), Some(0x0b));
    assert_eq!(state.sp(), 0x10ad);
}

#[test]
fn inx_and_dcx_wrap_without_flags() {
    let mut state = machine(&[0x03, 0x1b, 0x33, 0x3b, 0x3b]);
    state.set_register_pair(RegisterPair::BC, 0xffff);
    state.set_register_pair(RegisterPair::DE, 0x0000);
    state.set_register_pair(RegisterPair::SP, 0x00ff);
    let before = flags(true, true, true, true, true);
    state.set_condition_flags(before);
    run(&mut state, 3);
    assert_eq!(state.register_pair(RegisterPair::BC), 0x0000);
    assert_eq!(state.register_pair(RegisterPair::DE), 0xffff);
    assert_eq!(state.sp(), 0x0100);
    run(&mut state, 2);
    assert_eq!(state.sp(), 0x00fe);
    assert_eq!(state.condition_flags(), before);
}

#[test]
fn inr_m_and_dcr_m_work_on_memory() {
    let mut state = machine(&[0x34, 0x35, 0x35]);
    state.set_register_pair(RegisterPair::HL, 0x3a7c);
    state.set_register(Register::M, 0x0f);
    run(&mut state, 1);
    assert_eq!(state.read_memory(0x3a7c), Some(0x10));
    assert_eq!(state.condition_flags(), flags(false, false, false, false, true));
    run(&mut state, 1);
    assert_eq!(state.read_memory(0x3a7c), Some(0x0f));
    assert_eq!(state.condition_flags(), flags(false, false, true, false, true));
    run(&mut state, 1);
    assert_eq!(state.read_memory(0x3a7c), Some(0x0e));
    assert_eq!(state.condition_flags(), flags(false, false, false, false, false));
}

#[test]
fn inr_leaves_carry_alone() {
    let mut state = machine(&[0x04]);
    state.set_condition_flags(flags(false, false, false, true, false));
    state.set_register(Register::B, 0xff);
    run(&mut state, 1);
    assert_eq!(state.b(), 0);
    assert_eq!(state.condition_flags(), flags(true, false, true, true, true));
}

#[test]
fn dad_adds_to_hl_and_sets_only_carry() {
    let mut state = machine(&[0x09, 0x29, 0x39]);
    state.set_register_pair(RegisterPair::BC, 0x339f);
    state.set_register_pair(RegisterPair::HL, 0xa17b);
    state.set_register_pair(RegisterPair::SP, 0x8000);
    let before = flags(true, true, true, true, true);
    state.set_condition_flags(before);
    run(&mut state, 1);
    assert_eq!(state.register_pair(RegisterPair::HL), 0xd51a);
    assert_eq!(state.condition_flags(), flags(true, true, true, false, true));
    run(&mut state, 1);
    assert_eq!(state.register_pair(RegisterPair::HL), 0xaa34);
    assert_eq!(state.condition_flags(), before);
    run(&mut state, 1);
    assert_eq!(state.register_pair(RegisterPair::HL), 0x2a34);
    assert!(state.condition_flags().carry);
    assert_eq!(state.register_pair(RegisterPair::BC), 0x339f);
}

#[test]
fn rotates_change_only_carry() {
    let mut state = machine(&[0x07, 0x0f, 0x17, 0x1f]);
    state.set_register(Register::A, 0xf2);
    state.set_condition_flags(flags(true, true, true, false, true));
    run(&mut state, 1);
    assert_eq!(state.a(), 0xe5);
    assert_eq!(state.condition_flags(), flags(true, true, true, true, true));
    run(&mut state, 1);
    assert_eq!(state.a(), 0xf2);
    assert_eq!(state.condition_flags(), flags(true, true, true, true, true));
    run(&mut state, 1);
    assert_eq!(state.a(), 0xe5);
    assert_eq!(state.condition_flags(), flags(true, true, true, true, true));
    run(&mut state, 1);
    assert_eq!(state.a(), 0xf2);
    assert_eq!(state.condition_flags(), flags(true, true, true, true, true));
}

#[test]
fn ral_and_rar_go_through_carry() {
    let mut state = machine(&[0x17, 0x1f, 0x1f]);
    state.set_register(Register::A, 0xb5);
    run(&mut state, 1);
    assert_eq!(state.a(), 0x6a);
    assert!(state.condition_flags().carry);
    run(&mut state, 1);
    assert_eq!(state.a(), 0xb5);
    assert!(!state.condition_flags().carry);
    run(&mut state, 1);
    assert_eq!(state.a(), 0x5a);
    assert!(state.condition_flags().carry);
}

#[test]
fn cma_stc_cmc() {
    let mut state = machine(&[0x2f, 0x37, 0x3f, 0x3f]);
    state.set_register(Register::A, 0x51);
    state.set_condition_flags(flags(true, false, true, false, true));
    run(&mut state, 1);
    assert_eq!(state.a(), 0xae);
    assert_eq!(state.condition_flags(), flags(true, false, true, false, true));
    run(&mut state, 1);
    assert_eq!(state.condition_flags(), flags(true, false, true, true, true));
    run(&mut state, 1);
    assert_eq!(state.condition_flags(), flags(true, false, true, false, true));
    run(&mut state, 1);
    assert_eq!(state.condition_flags(), flags(true, false, true, true, true));
    assert_eq!(state.a(), 0xae);
}

#[test]
fn daa_adjusts_the_accumulator() {
    let mut state = machine(&[0x27]);
    state.set_register(Register::A, 0x9b);
    run(&mut state, 1);
    assert_eq!(state.a(), 0x01);
    assert_eq!(state.condition_flags(), flags(false, false, false, true, true));
}

#[test]
fn accumulator_operations_on_registers() {
    let mut state = machine(&[0x80, 0x89, 0x92, 0x9b, 0xa4, 0xad, 0xb6, 0xbf]);
    state.set_register(Register::A, 0x6c);
    state.set_register(Register::B, 0x2e);
    state.set_register(Register::C, 0x65);
    state.set_register(Register::D, 0x01);
    state.set_register(Register::E, 0x0f);
    state.set_register(Register::H, 0x3c);
    state.set_register(Register::L, 0xff);
    run(&mut state, 1);
    assert_eq!(state.a(), 0x9a);
    assert_eq!(state.condition_flags(), flags(false, true, true, false, true));
    run(&mut state, 1);
    assert_eq!(state.a(), 0xff);
    assert_eq!(state.condition_flags(), flags(false, true, true, false, false));
    run(&mut state, 1);
    assert_eq!(state.a(), 0xfe);
    assert_eq!(state.condition_flags(), flags(false, true, false, false, false));
    run(&mut state, 1);
    assert_eq!(state.a(), 0xef);
    assert_eq!(state.condition_flags(), flags(false, true, false, false, true));
    run(&mut state, 1);
    assert_eq!(state.a(), 0x2c);
    assert_eq!(state.condition_flags(), flags(false, false, false, false, true));
    run(&mut state, 1);
    assert_eq!(state.a(), 0xd3);
    assert_eq!(state.condition_flags(), flags(false, true, false, false, true));
    state.set_register_pair(RegisterPair::HL, 0x7000);
    state.set_register(Register::M, 0x0c);
    run(&mut state, 1);
    assert_eq!(state.a(), 0xdf);
    assert_eq!(state.condition_flags(), flags(false, true, false, false, true));
    run(&mut state, 1);
    assert_eq!(state.a(), 0xdf);
    assert_eq!(state.condition_flags(), flags(true, false, true, false, false));
    assert_eq!(state.pc(), 8);
}

#[test]
fn adc_and_sbb_take_the_carry_in() {
    let mut state = machine(&[0x88, 0x98]);
    state.set_register(Register::A, 0x3d);
    state.set_register(Register::B, 0x42);
    state.set_condition_flags(flags(false, false, false, true, false));
    run(&mut state, 1);
    assert_eq!(state.a(), 0x80);
    assert_eq!(state.condition_flags(), flags(false, true, false, false, true));
    state.set_condition_flags(flags(false, false, false, true, false));
    state.set_register(Register::A, 0x04);
    state.set_register(Register::B, 0x02);
    run(&mut state, 1);
    assert_eq!(state.a(), 0x01);
    assert_eq!(state.condition_flags(), flags(false, false, false, false, false));
}

#[test]
fn cmp_sets_flags_and_leaves_the_accumulator() {
    let mut state = machine(&[0xbb, 0xfe, 0x0a, 0xfe, 0x0b]);
    state.set_register(Register::A, 0x0a);
    state.set_register(Register::E, 0x05);
    run(&mut state, 1);
    assert_eq!(state.a(), 0x0a);
    assert_eq!(state.condition_flags(), flags(false, false, true, false, false));
    run(&mut state, 1);
    assert_eq!(state.a(), 0x0a);
    assert_eq!(state.condition_flags(), flags(true, false, true, false, false));
    run(&mut state, 1);
    assert_eq!(state.a(), 0x0a);
    assert_eq!(state.condition_flags(), flags(false, true, true, true, true));
    assert_eq!(state.pc(), 5);
}

#[test]
fn logic_operations_keep_the_auxiliary_carry() {
    for aux in [false, true] {
        let mut state = machine(&[0xa0, 0xa8, 0xb0, 0xe6, 0xff, 0xee, 0x00, 0xf6, 0x00]);
        state.set_register(Register::A, 0x3c);
        state.set_register(Register::B, 0x0f);
        state.set_condition_flags(flags(false, false, false, true, aux));
        for _ in 0..6 {
            run(&mut state, 1);
            assert_eq!(state.condition_flags().aux_carry, aux);
            assert!(!state.condition_flags().carry);
        }
        assert_eq!(state.a(), 0x0f);
    }
}

#[test]
fn immediate_operations_take_the_operand_byte() {
    let mut state = machine(&[
        0xc6, 0x42, 0xce, 0xbe, 0xd6, 0x01, 0xde, 0x01, 0xe6, 0x0f, 0xee, 0x81, 0xf6, 0x0f,
    ]);
    state.set_register(Register::A, 0x14);
    run(&mut state, 1);
    assert_eq!(state.a(), 0x56);
    assert_eq!(state.condition_flags(), flags(false, false, true, false, false));
    run(&mut state, 1);
    assert_eq!(state.a(), 0x14);
    assert_eq!(state.condition_flags(), flags(false, false, true, true, true));
    run(&mut state, 1);
    assert_eq!(state.a(), 0x13);
    run(&mut state, 1);
    assert_eq!(state.a(), 0x12);
    run(&mut state, 1);
    assert_eq!(state.a(), 0x02);
    run(&mut state, 1);
    assert_eq!(state.a(), 0x83);
    run(&mut state, 1);
    assert_eq!(state.a(), 0x8f);
    assert_eq!(state.pc(), 14);
}

#[test]
fn jmp_goes_to_the_address() {
    let mut state = machine(&[0xc3, 0x00, 0x08]);
    run(&mut state, 1);
    assert_eq!(state.pc(), 0x0800);
}

#[test]
fn conditional_jumps_follow_their_flag() {
    let cases: [(u8, ConditionFlags, bool); 16] = [
        (0xc2, flags(false, false, false, false, false), true),
        (0xc2, flags(true, false, false, false, false), false),
        (0xca, flags(true, false, false, false, false), true),
        (0xca, flags(false, false, false, false, false), false),
        (0xd2, flags(false, false, false, false, false), true),
        (0xd2, flags(false, false, false, true, false), false),
        (0xda, flags(false, false, false, true, false), true),
        (0xda, flags(false, false, false, false, false), false),
        (0xe2, flags(false, false, false, false, false), true),
        (0xe2, flags(false, false, true, false, false), false),
        (0xea, flags(false, false, true, false, false), true),
        (0xea, flags(false, false, false, false, false), false),
        (0xf2, flags(false, false, false, false, false), true),
        (0xf2, flags(false, true, false, false, false), false),
        (0xfa, flags(false, true, false, false, false), true),
        (0xfa, flags(false, false, false, false, false), false),
    ];
    for (opcode, before, taken) in cases {
        let mut state = machine(&[opcode, 0x34, 0x12]);
        state.set_condition_flags(before);
        run(&mut state, 1);
        assert_eq!(state.pc(), if taken { 0x1234 } else { 3 }, "opcode {:02x}", opcode);
        assert_eq!(state.condition_flags(), before);
    }
}

#[test]
fn call_pushes_the_return_address_and_ret_pops_it() {
    let mut state = machine(&[0xcd, 0x10, 0x00]);
    state.load(&[0xc9], 0x0010).unwrap();
    state.set_register_pair(RegisterPair::SP, 0x2000);
    run(&mut state, 1);
    assert_eq!(state.pc(), 0x0010);
    assert_eq!(state.sp(), 0x1ffe);
    assert_eq!(state.read_memory(0x1ffe), Some(0x03));
    assert_eq!(state.read_memory(0x1fff), Some(0x00));
    run(&mut state, 1);
    assert_eq!(state.pc(), 0x0003);
    assert_eq!(state.sp(), 0x2000);
}

#[test]
fn conditional_call_and_return_that_are_not_taken_only_advance() {
    let mut state = machine(&[0xcc, 0x00, 0x30, 0xc8]);
    state.set_register_pair(RegisterPair::SP, 0x2000);
    run(&mut state, 1);
    assert_eq!(state.pc(), 3);
    assert_eq!(state.sp(), 0x2000);
    run(&mut state, 1);
    assert_eq!(state.pc(), 4);
    assert_eq!(state.sp(), 0x2000);
}

#[test]
fn conditional_call_and_return_that_are_taken() {
    let mut state = machine(&[0xdc, 0x00, 0x30]);
    state.load(&[0xd8], 0x3000).unwrap();
    state.set_register_pair(RegisterPair::SP, 0x2000);
    state.set_condition_flags(flags(false, false, false, true, false));
    run(&mut state, 1);
    assert_eq!(state.pc(), 0x3000);
    assert_eq!(state.sp(), 0x1ffe);
    run(&mut state, 1);
    assert_eq!(state.pc(), 3);
    assert_eq!(state.sp(), 0x2000);
}

#[test]
fn rst_calls_eight_times_its_number() {
    for n in 0..8u8 {
        let mut state = machine(&[]);
        state.load(&[0xc7 + 8 * n], 0x0100).unwrap();
        assert!(state.set_pc(0x0100));
        state.set_register_pair(RegisterPair::SP, 0x2000);
        run(&mut state, 1);
        assert_eq!(state.pc(), 8 * n as u16);
        assert_eq!(state.sp(), 0x1ffe);
        assert_eq!(state.read_memory(0x1ffe), Some(0x01));
        assert_eq!(state.read_memory(0x1fff), Some(0x01));
    }
}

#[test]
fn push_and_pop_every_pair() {
    let mut state = machine(&[0xc5, 0xd5, 0xe5, 0xc1, 0xd1, 0xe1]);
    state.set_register_pair(RegisterPair::BC, 0x1122);
    state.set_register_pair(RegisterPair::DE, 0x3344);
    state.set_register_pair(RegisterPair::HL, 0x5566);
    state.set_register_pair(RegisterPair::SP, 0x2000);
    run(&mut state, 3);
    assert_eq!(state.sp(), 0x1ffa);
    assert_eq!(&state.memory()[0x1ffa..0x2000], &[0x66, 0x55, 0x44, 0x33, 0x22, 0x11]);
    run(&mut state, 3);
    assert_eq!(state.register_pair(RegisterPair::BC), 0x5566);
    assert_eq!(state.register_pair(RegisterPair::DE), 0x3344);
    assert_eq!(state.register_pair(RegisterPair::HL), 0x1122);
    assert_eq!(state.sp(), 0x2000);
}

#[test]
fn stack_pointer_wraps_in_sixteen_bits() {
    let mut state = machine(&[0xc5, 0xc1]);
    state.set_register_pair(RegisterPair::BC, 0xbeef);
    run(&mut state, 1);
    assert_eq!(state.sp(), 0xfffe);
    assert_eq!(state.read_memory(0xfffe), Some(0xef));
    assert_eq!(state.read_memory(0xffff), Some(0xbe));
    run(&mut state, 1);
    assert_eq!(state.sp(), 0x0000);
}

#[test]
fn ei_and_di_set_the_latch() {
    let mut state = machine(&[0xfb, 0xf3, 0xfb]);
    assert!(!state.int_enable());
    run(&mut state, 1);
    assert!(state.int_enable());
    run(&mut state, 1);
    assert!(!state.int_enable());
    run(&mut state, 1);
    assert!(state.int_enable());
}

#[test]
fn hlt_stops_the_machine() {
    let mut state = machine(&[0x76, 0x3c]);
    assert_eq!(emulate_8080(&mut state), StepOutcome::Halted);
    assert!(!state.is_running());
    assert_eq!(state.pc(), 1);
    let stopped = state.clone();
    assert_eq!(emulate_8080(&mut state), StepOutcome::Halted);
    assert_eq!(emulate_8080(&mut state), StepOutcome::Halted);
    assert_eq!(state, stopped);
    assert_eq!(state.a(), 0);
}

#[test]
fn undefined_bytes_stop_the_machine() {
    for opcode in [0x08u8, 0x10, 0x18, 0x20, 0x28, 0x30, 0x38, 0xcb, 0xd9, 0xdd, 0xed, 0xfd] {
        let mut state = machine(&[opcode, 0x00, 0x10]);
        state.set_register_pair(RegisterPair::SP, 0x2000);
        let before = state.clone();
        assert_eq!(
            emulate_8080(&mut state),
            StepOutcome::Fatal(Fault::UndefinedOpcode { opcode })
        );
        assert!(!state.is_running());
        assert_eq!(state.pc(), 0);
        assert_eq!(state.sp(), 0x2000);
        assert_eq!(state.memory(), before.memory());
        assert_eq!(emulate_8080(&mut state), StepOutcome::Halted);
    }
}

#[test]
fn no_opcode_is_unimplemented() {
    for opcode in 0..=255u8 {
        let mut memory = vec![0u8; 0x400];
        memory[0x100] = opcode;
        memory[0x101] = 0x00;
        memory[0x102] = 0x02;
        let mut state = State8080::with_memory(memory, 0x100).unwrap();
        state.set_register_pair(RegisterPair::SP, 0x0300);
        state.set_register_pair(RegisterPair::HL, 0x0200);
        let outcome = emulate_8080(&mut state);
        assert!(!matches!(outcome, StepOutcome::Unimplemented { .. }), "opcode {:02x}", opcode);
        assert!((state.pc() as usize) < state.memory().len());
        assert_eq!(state.memory().len(), 0x400);
    }
}

#[test]
fn running_off_the_end_of_memory_is_fatal() {
    let mut state = small(&[0x06, 0x42, 0x00]);
    assert_eq!(emulate_8080(&mut state), StepOutcome::Continue);
    assert_eq!(state.pc(), 2);
    let before = state.clone();
    assert_eq!(emulate_8080(&mut state), out_of_bounds(3, 0x00));
    assert!(!state.is_running());
    assert_eq!(state.pc(), 2);
    assert_eq!(state.b(), 0x42);
    assert_eq!(state.memory(), before.memory());
    assert_eq!(emulate_8080(&mut state), StepOutcome::Halted);
}

#[test]
fn fault_leaves_registers_flags_and_memory_alone() {
    let mut state = small(&[0x3c]);
    state.set_register(Register::A, 0xff);
    assert_eq!(emulate_8080(&mut state), out_of_bounds(1, 0x3c));
    assert_eq!(state.a(), 0xff);
    assert_eq!(state.condition_flags(), clear());
    assert_eq!(state.pc(), 0);
    assert!(!state.is_running());
}

#[test]
fn operand_bytes_beyond_memory_are_fatal() {
    let mut state = small(&[0xc3, 0x00]);
    assert_eq!(emulate_8080(&mut state), out_of_bounds(2, 0xc3));
    assert!(!state.is_running());
    assert_eq!(state.pc(), 0);
    let mut state = small(&[0x00, 0x3e]);
    assert_eq!(emulate_8080(&mut state), StepOutcome::Continue);
    assert_eq!(emulate_8080(&mut state), out_of_bounds(2, 0x3e));
    assert_eq!(state.a(), 0);
}

#[test]
fn pc_at_the_top_of_the_address_space_does_not_wrap() {
    let mut state = machine(&[]);
    assert!(state.set_pc(0xffff));
    assert_eq!(emulate_8080(&mut state), out_of_bounds(0x10000, 0x00));
    assert_eq!(state.pc(), 0xffff);
}

#[test]
fn store_outside_memory_is_fatal() {
    let mut memory = vec![0u8; 0x100];
    memory[..3].copy_from_slice(&[0x32, 0x00, 0x02]);
    let mut state = State8080::with_memory(memory.clone(), 0).unwrap();
    state.set_register(Register::A, 0x11);
    assert_eq!(emulate_8080(&mut state), out_of_bounds(0x0200, 0x32));
    assert_eq!(state.memory(), &memory);
    assert_eq!(state.pc(), 0);
}

#[test]
fn word_access_reports_the_first_byte_outside() {
    let mut memory = vec![0u8; 0x100];
    memory[..3].copy_from_slice(&[0x22, 0xff, 0x00]);
    let mut state = State8080::with_memory(memory.clone(), 0).unwrap();
    state.set_register_pair(RegisterPair::HL, 0x1234);
    assert_eq!(emulate_8080(&mut state), out_of_bounds(0x0100, 0x22));
    assert_eq!(state.memory(), &memory);
    let mut memory = vec![0u8; 0x100];
    memory[..3].copy_from_slice(&[0x2a, 0x00, 0x30]);
    let mut state = State8080::with_memory(memory, 0).unwrap();
    assert_eq!(emulate_8080(&mut state), out_of_bounds(0x3000, 0x2a));
}

#[test]
fn operand_m_outside_memory_is_fatal() {
    for opcode in [0x34u8, 0x35, 0x36, 0x46, 0x70, 0x86, 0xbe] {
        let mut memory = vec![0u8; 0x100];
        memory[0] = opcode;
        let mut state = State8080::with_memory(memory.clone(), 0).unwrap();
        state.set_register_pair(RegisterPair::HL, 0x0100);
        let before = state.clone();
        assert_eq!(emulate_8080(&mut state), out_of_bounds(0x0100, opcode));
        assert_eq!(state.memory(), &memory);
        assert_eq!(state.a(), before.a());
        assert_eq!(state.condition_flags(), before.condition_flags());
    }
}

#[test]
fn jump_outside_memory_is_fatal() {
    let mut memory = vec![0u8; 0x100];
    memory[..3].copy_from_slice(&[0xc3, 0x00, 0x01]);
    let mut state = State8080::with_memory(memory, 0).unwrap();
    assert_eq!(emulate_8080(&mut state), out_of_bounds(0x0100, 0xc3));
    assert_eq!(state.pc(), 0);
}

#[test]
fn stack_outside_memory_is_fatal() {
    let mut memory = vec![0u8; 0x100];
    memory[..2].copy_from_slice(&[0xc5, 0xc1]);
    let mut state = State8080::with_memory(memory.clone(), 0).unwrap();
    state.set_register_pair(RegisterPair::SP, 0x0101);
    state.set_register_pair(RegisterPair::BC, 0xabcd);
    assert_eq!(emulate_8080(&mut state), out_of_bounds(0x0100, 0xc5));
    assert_eq!(state.sp(), 0x0101);
    assert_eq!(state.memory(), &memory);
    let mut state = State8080::with_memory(memory.clone(), 1).unwrap();
    state.set_register_pair(RegisterPair::SP, 0x00ff);
    assert_eq!(emulate_8080(&mut state), out_of_bounds(0x0100, 0xc1));
    assert_eq!(state.sp(), 0x00ff);
    let mut state = State8080::with_memory(memory, 0).unwrap();
    state.set_register_pair(RegisterPair::SP, 0x0001);
    assert_eq!(emulate_8080(&mut state), out_of_bounds(0xffff, 0xc5));
}

#[test]
fn call_checks_before_it_pushes() {
    let mut memory = vec![0u8; 0x100];
    memory[..3].copy_from_slice(&[0xcd, 0x00, 0x40]);
    let mut state = State8080::with_memory(memory.clone(), 0).unwrap();
    state.set_register_pair(RegisterPair::SP, 0x0080);
    assert_eq!(emulate_8080(&mut state), out_of_bounds(0x4000, 0xcd));
    assert_eq!(state.memory(), &memory);
    assert_eq!(state.sp(), 0x0080);
    assert_eq!(state.pc(), 0);
}

#[test]
fn call_at_the_end_of_memory_has_no_return_address() {
    let mut memory = vec![0u8; 0x100];
    memory[0xfd..].copy_from_slice(&[0xcd, 0x00, 0x00]);
    let mut state = State8080::with_memory(memory.clone(), 0xfd).unwrap();
    state.set_register_pair(RegisterPair::SP, 0x0080);
    assert_eq!(emulate_8080(&mut state), out_of_bounds(0x0100, 0xcd));
    assert_eq!(state.memory(), &memory);
}

#[test]
fn ret_to_an_address_outside_memory_is_fatal() {
    let mut memory = vec![0u8; 0x100];
    memory[0] = 0xc9;
    memory[0x80] = 0x00;
    memory[0x81] = 0x20;
    let mut state = State8080::with_memory(memory, 0).unwrap();
    state.set_register_pair(RegisterPair::SP, 0x0080);
    assert_eq!(emulate_8080(&mut state), out_of_bounds(0x2000, 0xc9));
    assert_eq!(state.sp(), 0x0080);
}

#[test]
fn in_asks_for_the_port_and_waits_for_the_byte() {
    let mut state = machine(&[0xdb, 0x07]);
    state.set_register(Register::A, 0x11);
    assert_eq!(emulate_8080(&mut state), StepOutcome::PortRead { port: 7 });
    assert_eq!(state.pc(), 2);
    assert_eq!(state.a(), 0x11);
    assert!(state.is_running());
    assert_eq!(finish_port_read(&mut state, 7, Ok(0x55)), StepOutcome::Continue);
    assert_eq!(state.a(), 0x55);
    assert_eq!(state.pc(), 2);
    assert_eq!(state.condition_flags(), clear());
}

#[test]
fn out_hands_the_accumulator_to_the_port() {
    let mut state = machine(&[0xd3, 0x03]);
    state.set_register(Register::A, 0x99);
    assert_eq!(emulate_8080(&mut state), StepOutcome::PortWrite { port: 3, value: 0x99 });
    assert_eq!(state.pc(), 2);
    let before = state.clone();
    assert_eq!(finish_port_write(&mut state, 3, Ok(())), StepOutcome::Continue);
    assert_eq!(state, before);
}

#[test]
fn rejected_port_stops_the_machine() {
    let mut state = machine(&[0xdb, 0x07]);
    assert_eq!(emulate_8080(&mut state), StepOutcome::PortRead { port: 7 });
    assert_eq!(
        finish_port_read(&mut state, 7, Err(PortRejected)),
        StepOutcome::Fatal(Fault::InvalidPort { port: 7 })
    );
    assert!(!state.is_running());
    assert_eq!(state.a(), 0);
    let mut state = machine(&[0xd3, 0x09]);
    assert_eq!(emulate_8080(&mut state), StepOutcome::PortWrite { port: 9, value: 0 });
    assert_eq!(
        finish_port_write(&mut state, 9, Err(PortRejected)),
        StepOutcome::Fatal(Fault::InvalidPort { port: 9 })
    );
    assert!(!state.is_running());
}

#[test]
fn ports_are_served_from_the_hook() {
    let mut ports = Ports { inputs: vec![0x10, 0x20, 0x30], written: Vec::new() };
    let mut state = machine(&[0xdb, 0x02, 0xd3, 0x05, 0x3c, 0xd3, 0x06, 0x76]);
    assert_eq!(emulate_with_ports(&mut state, &mut ports), StepOutcome::Continue);
    assert_eq!(state.a(), 0x30);
    assert_eq!(emulate_with_ports(&mut state, &mut ports), StepOutcome::Continue);
    assert_eq!(emulate_with_ports(&mut state, &mut ports), StepOutcome::Continue);
    assert_eq!(emulate_with_ports(&mut state, &mut ports), StepOutcome::Continue);
    assert_eq!(emulate_with_ports(&mut state, &mut ports), StepOutcome::Halted);
    assert_eq!(ports.written, vec![(5, 0x30), (6, 0x31)]);
    assert_eq!(state.pc(), 8);
}

#[test]
fn hook_that_rejects_a_port_stops_the_run() {
    let mut ports = Ports { inputs: vec![0; 4], written: Vec::new() };
    let mut state = machine(&[0xd3, 0xff, 0x3c]);
    assert_eq!(
        emulate_with_ports(&mut state, &mut ports),
        StepOutcome::Fatal(Fault::InvalidPort { port: 0xff })
    );
    assert!(!state.is_running());
    assert_eq!(emulate_with_ports(&mut state, &mut ports), StepOutcome::Halted);
    assert!(ports.written.is_empty());
    let mut state = machine(&[0xdb, 0xff]);
    assert_eq!(
        emulate_with_ports(&mut state, &mut ports),
        StepOutcome::Fatal(Fault::InvalidPort { port: 0xff })
    );
    assert_eq!(state.a(), 0);
}

#[test]
fn interrupt_calls_the_restart_address_and_disables_interrupts() {
    let mut state = machine(&[0xfb, 0x00, 0x00]);
    state.set_register_pair(RegisterPair::SP, 0x2400);
    run(&mut state, 2);
    assert_eq!(deliver_interrupt(&mut state, 2), InterruptOutcome::Delivered);
    assert_eq!(state.pc(), 0x0010);
    assert_eq!(state.sp(), 0x23fe);
    assert_eq!(state.read_memory(0x23fe), Some(0x02));
    assert_eq!(state.read_memory(0x23ff), Some(0x00));
    assert!(!state.int_enable());
    assert!(state.is_running());
}

#[test]
fn interrupt_is_not_taken_while_interrupts_are_disabled() {
    let mut state = machine(&[0x00]);
    state.set_register_pair(RegisterPair::SP, 0x2400);
    let before = state.clone();
    for n in 0..8u8 {
        assert_eq!(deliver_interrupt(&mut state, n), InterruptOutcome::Disabled);
        assert_eq!(state, before);
    }
}

#[test]
fn interrupt_is_delivered_once_per_enable() {
    let mut state = machine(&[0xfb]);
    state.set_register_pair(RegisterPair::SP, 0x2400);
    run(&mut state, 1);
    assert_eq!(deliver_interrupt(&mut state, 7), InterruptOutcome::Delivered);
    assert_eq!(state.pc(), 0x0038);
    let after = state.clone();
    assert_eq!(deliver_interrupt(&mut state, 1), InterruptOutcome::Disabled);
    assert_eq!(state, after);
}

#[test]
fn halted_machine_takes_no_interrupt() {
    let mut state = machine(&[0xfb, 0x76]);
    run(&mut state, 1);
    assert_eq!(emulate_8080(&mut state), StepOutcome::Halted);
    let before = state.clone();
    assert_eq!(deliver_interrupt(&mut state, 1), InterruptOutcome::Halted);
    assert_eq!(state, before);
}

#[test]
fn interrupt_with_the_stack_outside_memory_is_fatal() {
    let mut memory = vec![0u8; 0x100];
    memory[0] = 0xfb;
    let mut state = State8080::with_memory(memory.clone(), 0).unwrap();
    state.set_register_pair(RegisterPair::SP, 0x0200);
    run(&mut state, 1);
    assert_eq!(
        deliver_interrupt(&mut state, 1),
        InterruptOutcome::Fatal(Fault::OutOfBoundsMemoryAccess { address: 0x01fe, opcode: 0xcf })
    );
    assert!(!state.is_running());
    assert!(state.int_enable());
    assert_eq!(state.pc(), 1);
    assert_eq!(state.sp(), 0x0200);
    assert_eq!(state.memory(), &memory);
}

#[test]
fn interrupt_to_a_restart_address_outside_memory_is_fatal() {
    let mut state = small(&[0xfb, 0x00, 0x00, 0x00, 0x00, 0x00, 0x00, 0x00, 0x00, 0x00]);
    state.set_register_pair(RegisterPair::SP, 0x0008);
    run(&mut state, 1);
    assert_eq!(
        deliver_interrupt(&mut state, 2),
        InterruptOutcome::Fatal(Fault::OutOfBoundsMemoryAccess { address: 0x0010, opcode: 0xd7 })
    );
    assert_eq!(state.sp(), 0x0008);
}

#[test]
fn a_small_program_counts_down() {
    // MVI B,5; loop: DCR B; JNZ loop; HLT
    let mut state = machine(&[0x06, 0x05, 0x05, 0xc2, 0x02, 0x00, 0x76]);
    let mut steps = 0;
    loop {
        match emulate_8080(&mut state) {
            StepOutcome::Continue => steps += 1,
            StepOutcome::Halted => break,
            other => panic!("unexpected outcome {:?}", other),
        }
    }
    assert_eq!(steps, 11);
    assert_eq!(state.b(), 0);
    assert!(state.condition_flags().zero);
    assert_eq!(state.pc(), 7);
}
