//! Status flags of the 8080 and the arithmetic that sets them.
//!
//! Every function here is pure: it takes operand bytes (and, where the
//! instruction family leaves a flag alone, the flags before the operation)
//! and returns the result byte together with the flags after it.

use vstd::prelude::*;

verus! {

/// The five status flags.
#[derive(Clone, Copy, Debug, PartialEq, Eq, Structural)]
pub struct ConditionFlags {
    pub zero: bool,
    pub sign: bool,
    pub parity: bool,
    pub carry: bool,
    pub aux_carry: bool,
}

/// A result byte together with the flags after the operation.
#[derive(Clone, Copy, Debug, PartialEq, Eq, Structural)]
pub struct AluResult {
    pub value: u8,
    pub flags: ConditionFlags,
}

/// A 16-bit sum together with the carry out of bit 15.
#[derive(Clone, Copy, Debug, PartialEq, Eq, Structural)]
pub struct WideSum {
    pub value: u16,
    pub carry: bool,
}

/// How many of the `width` lowest bits of `x` are set.
pub open spec fn low_ones(x: nat, width: nat) -> nat
    decreases width,
{
    if width == 0 {
        0
    } else {
        x % 2 + low_ones(x / 2, (width - 1) as nat)
    }
}

/// Even parity of the `size` lowest bits of `x`.
pub open spec fn even_parity(x: u8, size: u8) -> bool {
    low_ones(x as nat, size as nat) % 2 == 0
}

/// Bit 7 of a byte.
pub open spec fn sign_bit(value: u8) -> bool {
    value & 0x80 == 0x80
}

pub open spec fn carry_value(carry: bool) -> int {
    if carry {
        1
    } else {
        0
    }
}

/// The byte that stands for `value` once a carry out of bit 7, or a borrow into
/// it, has been dropped. It is meant for values from `-0x100` to `0x1ff`.
pub open spec fn wrap_byte(value: int) -> u8 {
    if value < 0 {
        (value + 0x100) as u8
    } else if value > 0xff {
        (value - 0x100) as u8
    } else {
        value as u8
    }
}

/// The word that stands for `value` once a carry out of bit 15, or a borrow
/// into it, has been dropped. It is meant for values from `-0x10000` to `0x1ffff`.
pub open spec fn wrap_word(value: int) -> u16 {
    if value < 0 {
        (value + 0x10000) as u16
    } else if value > 0xffff {
        (value - 0x10000) as u16
    } else {
        value as u16
    }
}

/// Zero, sign and parity taken from `value`; carry and auxiliary carry as given.
pub open spec fn result_flags(value: u8, carry: bool, aux_carry: bool) -> ConditionFlags {
    ConditionFlags {
        zero: value == 0,
        sign: sign_bit(value),
        parity: even_parity(value, 8),
        carry,
        aux_carry,
    }
}

/// `a + b + carry_in` in eight bits.
#[verifier::opaque]
pub open spec fn alu_add_spec(a: u8, b: u8, carry_in: bool) -> AluResult {
    let sum = a + b + carry_value(carry_in);
    AluResult {
        value: wrap_byte(sum),
        flags: result_flags(
            wrap_byte(sum),
            sum > 0xff,
            a % 16 + b % 16 + carry_value(carry_in) > 0xf,
        ),
    }
}

/// `a - b - borrow_in` in eight bits; carry and auxiliary carry report a borrow.
#[verifier::opaque]
pub open spec fn alu_subtract_spec(a: u8, b: u8, borrow_in: bool) -> AluResult {
    let difference = a - b - carry_value(borrow_in);
    AluResult {
        value: wrap_byte(difference),
        flags: result_flags(
            wrap_byte(difference),
            difference < 0,
            a % 16 - b % 16 - carry_value(borrow_in) < 0,
        ),
    }
}

/// Flags after a logic instruction with result `value`: carry is cleared and
/// the auxiliary carry keeps the value it had in `before`.
#[verifier::opaque]
pub open spec fn logic_result(value: u8, before: ConditionFlags) -> AluResult {
    AluResult { value, flags: result_flags(value, false, before.aux_carry) }
}

pub open spec fn alu_and_spec(a: u8, b: u8, before: ConditionFlags) -> AluResult {
    logic_result(a & b, before)
}

pub open spec fn alu_xor_spec(a: u8, b: u8, before: ConditionFlags) -> AluResult {
    logic_result(a ^ b, before)
}

pub open spec fn alu_or_spec(a: u8, b: u8, before: ConditionFlags) -> AluResult {
    logic_result(a | b, before)
}

/// `value + 1` in eight bits; carry keeps the value it had in `before`.
#[verifier::opaque]
pub open spec fn increment_spec(value: u8, before: ConditionFlags) -> AluResult {
    AluResult {
        value: wrap_byte(value + 1),
        flags: result_flags(wrap_byte(value + 1), before.carry, value % 16 == 0xf),
    }
}

/// `value - 1` in eight bits; carry keeps the value it had in `before`.
#[verifier::opaque]
pub open spec fn decrement_spec(value: u8, before: ConditionFlags) -> AluResult {
    AluResult {
        value: wrap_byte(value - 1),
        flags: result_flags(wrap_byte(value - 1), before.carry, value % 16 == 0),
    }
}

/// `a + b` in sixteen bits.
#[verifier::opaque]
pub open spec fn wide_add_spec(a: u16, b: u16) -> WideSum {
    WideSum { value: wrap_word(a + b), carry: a + b > 0xffff }
}

/// `value + 1` in sixteen bits.
#[verifier::opaque]
pub open spec fn wide_increment_spec(value: u16) -> u16 {
    wrap_word(value + 1)
}

/// `value - 1` in sixteen bits.
#[verifier::opaque]
pub open spec fn wide_decrement_spec(value: u16) -> u16 {
    wrap_word(value - 1)
}

pub open spec fn needs_low_adjust(value: u8, before: ConditionFlags) -> bool {
    before.aux_carry || value % 16 > 9
}

pub open spec fn needs_high_adjust(value: u8, before: ConditionFlags) -> bool {
    before.carry || value / 16 > 9 || (value / 16 == 9 && value % 16 > 9)
}

/// The correction that turns the sum of two packed decimal bytes into a packed decimal byte.
pub open spec fn decimal_correction(value: u8, before: ConditionFlags) -> u8 {
    if needs_low_adjust(value, before) && needs_high_adjust(value, before) {
        0x66
    } else if needs_low_adjust(value, before) {
        0x06
    } else if needs_high_adjust(value, before) {
        0x60
    } else {
        0x00
    }
}

/// Decimal adjust: the correction is added, zero, sign, parity and auxiliary
/// carry come from that addition, and carry is set exactly when the high digit
/// was corrected.
#[verifier::opaque]
pub open spec fn decimal_adjust_spec(value: u8, before: ConditionFlags) -> AluResult {
    let corrected = alu_add_spec(value, decimal_correction(value, before), false);
    AluResult {
        value: corrected.value,
        flags: ConditionFlags { carry: needs_high_adjust(value, before), ..corrected.flags },
    }
}

/// A byte rotated by one bit together with the bit that left it.
#[derive(Clone, Copy, Debug, PartialEq, Eq, Structural)]
pub struct Rotation {
    pub value: u8,
    pub carry: bool,
}

#[verifier::opaque]
pub open spec fn rotate_left_spec(value: u8) -> Rotation {
    Rotation { value: wrap_byte(value * 2 + carry_value(value >= 128)), carry: value >= 128 }
}

#[verifier::opaque]
pub open spec fn rotate_right_spec(value: u8) -> Rotation {
    Rotation { value: (value / 2 + 128 * carry_value(value % 2 == 1)) as u8, carry: value % 2 == 1 }
}

#[verifier::opaque]
pub open spec fn rotate_left_through_carry_spec(value: u8, carry_in: bool) -> Rotation {
    Rotation { value: wrap_byte(value * 2 + carry_value(carry_in)), carry: value >= 128 }
}

#[verifier::opaque]
pub open spec fn rotate_right_through_carry_spec(value: u8, carry_in: bool) -> Rotation {
    Rotation { value: (value / 2 + 128 * carry_value(carry_in)) as u8, carry: value % 2 == 1 }
}

/// The flag byte of the processor status word: sign in bit 7, zero in bit 6,
/// auxiliary carry in bit 4, parity in bit 2, carry in bit 0; bit 1 is always
/// set, bits 5 and 3 are always clear.
#[verifier::opaque]
pub open spec fn pack_flags_spec(flags: ConditionFlags) -> u8 {
    (128 * carry_value(flags.sign) + 64 * carry_value(flags.zero) + 16 * carry_value(
        flags.aux_carry,
    ) + 4 * carry_value(flags.parity) + 2 + carry_value(flags.carry)) as u8
}

/// The flags held in a flag byte; bits 5, 3 and 1 are ignored.
#[verifier::opaque]
pub open spec fn unpack_flags_spec(byte: u8) -> ConditionFlags {
    ConditionFlags {
        sign: (byte / 128) % 2 == 1,
        zero: (byte / 64) % 2 == 1,
        aux_carry: (byte / 16) % 2 == 1,
        parity: (byte / 4) % 2 == 1,
        carry: byte % 2 == 1,
    }
}

/// Parity flag for the `size` lowest bits of `x`: true when an even number of them is set.
pub fn parity(x: u8, size: u8) -> (even: bool)
    ensures
        even == even_parity(x, size),
{
    let mut rest: u8 = x;
    let mut even: bool = true;
    let mut i: u8 = 0;
    let ghost mut seen: nat = 0;
    while i < size
        invariant
            i <= size,
            even == (seen % 2 == 0),
            low_ones(x as nat, size as nat) == seen + low_ones(rest as nat, (size - i) as nat),
        decreases size - i,
    {
        assert(rest & 1 == rest % 2) by (bit_vector);
        assert(rest >> 1 == rest / 2) by (bit_vector);
        if rest & 1 == 1 {
            even = !even;
        }
        proof {
            seen = seen + (rest % 2) as nat;
        }
        rest = rest >> 1;
        i = i + 1;
    }
    even
}

/// Zero flag of a result byte.
pub fn zero(value: u8) -> (flag: bool)
    ensures
        flag == (value == 0),
{
    value == 0
}

/// Sign flag of a result byte.
pub fn sign(value: u8) -> (flag: bool)
    ensures
        flag == sign_bit(value),
{
    value & 0x80 == 0x80
}

/// Carry out of bit 7 of `a + b + carry_in`.
pub fn carry(a: u8, b: u8, carry_in: bool) -> (flag: bool)
    ensures
        flag == (a + b + carry_value(carry_in) > 0xff),
{
    let c: u16 = if carry_in { 1 } else { 0 };
    a as u16 + b as u16 + c > 0xff
}

/// Carry out of bit 3 of `a + b + carry_in`.
pub fn aux_carry(a: u8, b: u8, carry_in: bool) -> (flag: bool)
    ensures
        flag == (a % 16 + b % 16 + carry_value(carry_in) > 0xf),
{
    let c: u8 = if carry_in { 1 } else { 0 };
    a % 16 + b % 16 + c > 0xf
}

/// Borrow into bit 7 of `a - b - borrow_in`.
pub fn borrow(a: u8, b: u8, borrow_in: bool) -> (flag: bool)
    ensures
        flag == (a - b - carry_value(borrow_in) < 0),
{
    let c: u16 = if borrow_in { 1 } else { 0 };
    (a as u16) < b as u16 + c
}

/// Borrow into bit 3 of `a - b - borrow_in`.
pub fn aux_borrow(a: u8, b: u8, borrow_in: bool) -> (flag: bool)
    ensures
        flag == (a % 16 - b % 16 - carry_value(borrow_in) < 0),
{
    let c: u8 = if borrow_in { 1 } else { 0 };
    a % 16 < b % 16 + c
}

/// Flags of a result byte whose carry and auxiliary carry are already known.
pub fn flags_of(value: u8, carry: bool, aux_carry: bool) -> (flags: ConditionFlags)
    ensures
        flags == result_flags(value, carry, aux_carry),
{
    ConditionFlags {
        zero: zero(value),
        sign: sign(value),
        parity: parity(value, 8),
        carry,
        aux_carry,
    }
}

/// ADD, ADC, ADI, ACI.
pub fn alu_add(a: u8, b: u8, carry_in: bool) -> (result: AluResult)
    ensures
        result == alu_add_spec(a, b, carry_in),
{
    proof {
        reveal(alu_add_spec);
    }
    let c: u16 = if carry_in { 1 } else { 0 };
    let sum: u16 = a as u16 + b as u16 + c;
    let value: u8 = if sum > 0xff { (sum - 0x100) as u8 } else { sum as u8 };
    AluResult { value, flags: flags_of(value, carry(a, b, carry_in), aux_carry(a, b, carry_in)) }
}

/// SUB, SBB, SUI, SBI, and the comparison that CMP and CPI make.
pub fn alu_subtract(a: u8, b: u8, borrow_in: bool) -> (result: AluResult)
    ensures
        result == alu_subtract_spec(a, b, borrow_in),
{
    proof {
        reveal(alu_subtract_spec);
    }
    let c: u16 = if borrow_in { 1 } else { 0 };
    let raised: u16 = 0x100 + a as u16 - b as u16 - c;
    let value: u8 = if raised >= 0x100 { (raised - 0x100) as u8 } else { raised as u8 };
    AluResult {
        value,
        flags: flags_of(value, borrow(a, b, borrow_in), aux_borrow(a, b, borrow_in)),
    }
}

/// ANA, ANI.
pub fn alu_and(a: u8, b: u8, before: ConditionFlags) -> (result: AluResult)
    ensures
        result == alu_and_spec(a, b, before),
{
    proof {
        reveal(logic_result);
    }
    let value: u8 = a & b;
    AluResult { value, flags: flags_of(value, false, before.aux_carry) }
}

/// XRA, XRI.
pub fn alu_xor(a: u8, b: u8, before: ConditionFlags) -> (result: AluResult)
    ensures
        result == alu_xor_spec(a, b, before),
{
    proof {
        reveal(logic_result);
    }
    let value: u8 = a ^ b;
    AluResult { value, flags: flags_of(value, false, before.aux_carry) }
}

/// ORA, ORI.
pub fn alu_or(a: u8, b: u8, before: ConditionFlags) -> (result: AluResult)
    ensures
        result == alu_or_spec(a, b, before),
{
    proof {
        reveal(logic_result);
    }
    let value: u8 = a | b;
    AluResult { value, flags: flags_of(value, false, before.aux_carry) }
}

/// INR.
pub fn increment(value: u8, before: ConditionFlags) -> (result: AluResult)
    ensures
        result == increment_spec(value, before),
{
    proof {
        reveal(increment_spec);
    }
    let next: u8 = value.wrapping_add(1);
    AluResult { value: next, flags: flags_of(next, before.carry, value % 16 == 0xf) }
}

/// DCR.
pub fn decrement(value: u8, before: ConditionFlags) -> (result: AluResult)
    ensures
        result == decrement_spec(value, before),
{
    proof {
        reveal(decrement_spec);
    }
    let next: u8 = value.wrapping_sub(1);
    AluResult { value: next, flags: flags_of(next, before.carry, value % 16 == 0) }
}

/// DAD.
pub fn wide_add(a: u16, b: u16) -> (result: WideSum)
    ensures
        result == wide_add_spec(a, b),
{
    proof {
        reveal(wide_add_spec);
    }
    let sum: u32 = a as u32 + b as u32;
    WideSum {
        value: if sum > 0xffff { (sum - 0x10000) as u16 } else { sum as u16 },
        carry: sum > 0xffff,
    }
}

/// INX.
pub fn wide_increment(value: u16) -> (next: u16)
    ensures
        next == wide_increment_spec(value),
{
    proof {
        reveal(wide_increment_spec);
    }
    value.wrapping_add(1)
}

/// DCX.
pub fn wide_decrement(value: u16) -> (next: u16)
    ensures
        next == wide_decrement_spec(value),
{
    proof {
        reveal(wide_decrement_spec);
    }
    value.wrapping_sub(1)
}

/// DAA.
pub fn decimal_adjust(value: u8, before: ConditionFlags) -> (result: AluResult)
    ensures
        result == decimal_adjust_spec(value, before),
{
    proof {
        reveal(decimal_adjust_spec);
    }
    let low: u8 = value % 16;
    let high: u8 = value / 16;
    let mut correction: u8 = 0;
    let mut carry_out: bool = false;
    if before.aux_carry || low > 9 {
        correction = correction + 0x06;
    }
    if before.carry || high > 9 || (high == 9 && low > 9) {
        correction = correction + 0x60;
        carry_out = true;
    }
    let corrected = alu_add(value, correction, false);
    AluResult {
        value: corrected.value,
        flags: ConditionFlags { carry: carry_out, ..corrected.flags },
    }
}

/// RLC.
pub fn rotate_left(value: u8) -> (result: Rotation)
    ensures
        result == rotate_left_spec(value),
{
    proof {
        reveal(rotate_left_spec);
    }
    assert((value << 1) | (value >> 7) == if value >= 128 {
        (value * 2 + 1 - 0x100) as u8
    } else {
        (value * 2) as u8
    }) by (bit_vector);
    Rotation { value: (value << 1) | (value >> 7), carry: value >= 0x80 }
}

/// RRC.
pub fn rotate_right(value: u8) -> (result: Rotation)
    ensures
        result == rotate_right_spec(value),
{
    proof {
        reveal(rotate_right_spec);
    }
    assert((value >> 1) | (value << 7) == if value % 2 == 1 {
        (value / 2 + 128) as u8
    } else {
        value / 2
    }) by (bit_vector);
    assert((value & 1 == 1) == (value % 2 == 1)) by (bit_vector);
    Rotation { value: (value >> 1) | (value << 7), carry: value & 1 == 1 }
}

/// RAL.
pub fn rotate_left_through_carry(value: u8, carry_in: bool) -> (result: Rotation)
    ensures
        result == rotate_left_through_carry_spec(value, carry_in),
{
    proof {
        reveal(rotate_left_through_carry_spec);
    }
    let c: u8 = if carry_in { 1 } else { 0 };
    assert(c <= 1 ==> (value << 1) | c == if value >= 128 {
        (value * 2 + c - 0x100) as u8
    } else {
        (value * 2 + c) as u8
    }) by (bit_vector);
    Rotation { value: (value << 1) | c, carry: value >= 0x80 }
}

/// RAR.
pub fn rotate_right_through_carry(value: u8, carry_in: bool) -> (result: Rotation)
    ensures
        result == rotate_right_through_carry_spec(value, carry_in),
{
    proof {
        reveal(rotate_right_through_carry_spec);
    }
    let c: u8 = if carry_in { 0x80 } else { 0 };
    assert((c == 0 || c == 0x80) ==> (value >> 1) | c == (value / 2 + c) as u8) by (bit_vector);
    assert((value & 1 == 1) == (value % 2 == 1)) by (bit_vector);
    Rotation { value: (value >> 1) | c, carry: value & 1 == 1 }
}

/// The flag byte that PUSH PSW stores.
pub fn pack_flags(flags: ConditionFlags) -> (byte: u8)
    ensures
        byte == pack_flags_spec(flags),
{
    proof {
        reveal(pack_flags_spec);
    }
    let mut byte: u8 = 0x02;
    if flags.sign {
        byte = byte + 0x80;
    }
    if flags.zero {
        byte = byte + 0x40;
    }
    if flags.aux_carry {
        byte = byte + 0x10;
    }
    if flags.parity {
        byte = byte + 0x04;
    }
    if flags.carry {
        byte = byte + 0x01;
    }
    byte
}

/// The flags that POP PSW takes from a flag byte.
pub fn unpack_flags(byte: u8) -> (flags: ConditionFlags)
    ensures
        flags == unpack_flags_spec(byte),
{
    proof {
        reveal(unpack_flags_spec);
    }
    ConditionFlags {
        sign: (byte / 128) % 2 == 1,
        zero: (byte / 64) % 2 == 1,
        aux_carry: (byte / 16) % 2 == 1,
        parity: (byte / 4) % 2 == 1,
        carry: byte % 2 == 1,
    }
}

/// Unpacking a packed flag byte gives the flags back.
pub proof fn lemma_flags_round_trip(flags: ConditionFlags)
    ensures
        unpack_flags_spec(pack_flags_spec(flags)) == flags,
{
    reveal(pack_flags_spec);
    reveal(unpack_flags_spec);
}

/// The flags of an addition without carry-in, stated on the bits of the operands:
/// zero when the low eight bits of the sum are clear, carry when the sum exceeds
/// `0xff`, auxiliary carry when the sum of the low nibbles exceeds `0xf`.
pub proof fn lemma_add_flags(a: u8, b: u8)
    ensures
        alu_add_spec(a, b, false).flags.zero <==> (a as u16 + b as u16) as u16 & 0xff == 0,
        alu_add_spec(a, b, false).flags.carry <==> a + b > 0xff,
        alu_add_spec(a, b, false).flags.aux_carry <==> (a & 0xf) + (b & 0xf) > 0xf,
{
    reveal(alu_add_spec);
    let sum: u16 = (a as u16 + b as u16) as u16;
    assert(sum & 0xff == sum % 256) by (bit_vector);
    assert(a & 0xf == a % 16) by (bit_vector);
    assert(b & 0xf == b % 16) by (bit_vector);
}

} // verus!
