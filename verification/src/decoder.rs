//! The decoder: machine code to text, one instruction at a time.
//!
//! The text of an instruction is its mnemonic, then, where it has operands,
//! a tab and the operands separated by commas. Registers are written by
//! name, immediate bytes as two lower-case hex digits, and 16-bit operands
//! high byte first, though the code holds the low byte first.

use crate::instruction::{
    lookup, mnemonic_of, operand_length_of, operation_of, Operation, Register, RegisterPair,
    StackPair,
};
use vstd::prelude::*;

verus! {

/// One decoded instruction.
#[derive(Debug, PartialEq, Eq)]
pub struct DisassemblyRecord {
    /// Where the instruction starts.
    pub address: u16,
    /// How many bytes it takes, opcode included.
    pub bytes_consumed: u8,
    pub text: String,
}

/// A decoded instruction as a mathematical value.
pub struct RecordView {
    pub address: u16,
    pub bytes_consumed: u8,
    pub text: Seq<char>,
}

impl View for DisassemblyRecord {
    type V = RecordView;

    open spec fn view(&self) -> RecordView {
        RecordView { address: self.address, bytes_consumed: self.bytes_consumed, text: self.text@ }
    }
}

impl Clone for DisassemblyRecord {
    fn clone(&self) -> (copy: Self)
        ensures
            copy@ == self@,
    {
        DisassemblyRecord {
            address: self.address,
            bytes_consumed: self.bytes_consumed,
            text: self.text.clone(),
        }
    }
}

/// Why no instruction could be decoded.
#[derive(Clone, Copy, Debug, PartialEq, Eq, Structural)]
pub enum DecodeError {
    /// No instruction starts at `offset`: the buffer ends before it, or it
    /// lies beyond the 16-bit address space.
    OutOfBounds { offset: usize },
    /// The instruction at `address` starts with `opcode`, and the buffer
    /// ends before its last operand byte.
    TruncatedInstruction { address: u16, opcode: u8 },
}

pub open spec fn hex_digit_text(digit: u8) -> Seq<char> {
    if digit == 0 {
        "0"@
    } else if digit == 1 {
        "1"@
    } else if digit == 2 {
        "2"@
    } else if digit == 3 {
        "3"@
    } else if digit == 4 {
        "4"@
    } else if digit == 5 {
        "5"@
    } else if digit == 6 {
        "6"@
    } else if digit == 7 {
        "7"@
    } else if digit == 8 {
        "8"@
    } else if digit == 9 {
        "9"@
    } else if digit == 10 {
        "a"@
    } else if digit == 11 {
        "b"@
    } else if digit == 12 {
        "c"@
    } else if digit == 13 {
        "d"@
    } else if digit == 14 {
        "e"@
    } else {
        "f"@
    }
}

/// A byte as two hex digits.
pub open spec fn hex_byte_text(byte: u8) -> Seq<char> {
    hex_digit_text(byte / 16) + hex_digit_text(byte % 16)
}

/// A 16-bit operand as four hex digits, high byte first.
pub open spec fn hex_word_text(high: u8, low: u8) -> Seq<char> {
    hex_byte_text(high) + hex_byte_text(low)
}

pub open spec fn register_name(r: Register) -> Seq<char> {
    match r {
        Register::B => "B"@,
        Register::C => "C"@,
        Register::D => "D"@,
        Register::E => "E"@,
        Register::H => "H"@,
        Register::L => "L"@,
        Register::M => "M"@,
        Register::A => "A"@,
    }
}

pub open spec fn pair_name(rp: RegisterPair) -> Seq<char> {
    match rp {
        RegisterPair::BC => "B"@,
        RegisterPair::DE => "D"@,
        RegisterPair::HL => "H"@,
        RegisterPair::SP => "SP"@,
    }
}

pub open spec fn stack_pair_name(pair: StackPair) -> Seq<char> {
    match pair {
        StackPair::BC => "B"@,
        StackPair::DE => "D"@,
        StackPair::HL => "H"@,
        StackPair::PSW => "PSW"@,
    }
}

/// Whether the text of `operation` names any operand.
pub open spec fn has_operands(operation: Operation) -> bool {
    match operation {
        Operation::Lxi(_)
        | Operation::Stax(_)
        | Operation::Ldax(_)
        | Operation::Shld
        | Operation::Lhld
        | Operation::Sta
        | Operation::Lda
        | Operation::Inx(_)
        | Operation::Dcx(_)
        | Operation::Inr(_)
        | Operation::Dcr(_)
        | Operation::Mvi(_)
        | Operation::Dad(_)
        | Operation::Mov(_, _)
        | Operation::Alu(_, _)
        | Operation::AluImm(_)
        | Operation::Jmp
        | Operation::JmpIf(_)
        | Operation::Call
        | Operation::CallIf(_)
        | Operation::Rst(_)
        | Operation::Push(_)
        | Operation::Pop(_)
        | Operation::In
        | Operation::Out => true,
        _ => false,
    }
}

/// The operands of `operation` as text, with `lo` and `hi` the operand
/// bytes in the order in which the code holds them.
pub open spec fn operands_text(operation: Operation, lo: u8, hi: u8) -> Seq<char> {
    match operation {
        Operation::Lxi(rp) => pair_name(rp) + ","@ + hex_word_text(hi, lo),
        Operation::Stax(rp)
        | Operation::Ldax(rp)
        | Operation::Inx(rp)
        | Operation::Dcx(rp)
        | Operation::Dad(rp) => pair_name(rp),
        Operation::Shld
        | Operation::Lhld
        | Operation::Sta
        | Operation::Lda
        | Operation::Jmp
        | Operation::JmpIf(_)
        | Operation::Call
        | Operation::CallIf(_) => hex_word_text(hi, lo),
        Operation::Inr(r) | Operation::Dcr(r) | Operation::Alu(_, r) => register_name(r),
        Operation::Mvi(r) => register_name(r) + ","@ + hex_byte_text(lo),
        Operation::Mov(to, from) => register_name(to) + ","@ + register_name(from),
        Operation::AluImm(_) | Operation::In | Operation::Out => hex_byte_text(lo),
        Operation::Rst(n) => hex_digit_text(n),
        Operation::Push(pair) | Operation::Pop(pair) => stack_pair_name(pair),
        _ => Seq::<char>::empty(),
    }
}

/// The text of an instruction.
pub open spec fn instruction_text(operation: Operation, lo: u8, hi: u8) -> Seq<char> {
    if has_operands(operation) {
        mnemonic_of(operation) + "\t"@ + operands_text(operation, lo, hi)
    } else {
        mnemonic_of(operation)
    }
}

/// Operand byte `index` of the instruction at `offset`, or 0 where the
/// instruction has fewer operand bytes.
pub open spec fn operand_byte(buffer: Seq<u8>, offset: int, index: int, length: int) -> u8 {
    if index <= length {
        buffer[offset + index]
    } else {
        0
    }
}

/// The instruction that starts at `offset` of `buffer`.
pub open spec fn decode(buffer: Seq<u8>, offset: int) -> Result<RecordView, DecodeError> {
    if offset >= buffer.len() || offset > 0xffff {
        Err(DecodeError::OutOfBounds { offset: offset as usize })
    } else {
        let opcode = buffer[offset];
        let operation = operation_of(opcode);
        let length = operand_length_of(operation) as int;
        if offset + length >= buffer.len() {
            Err(DecodeError::TruncatedInstruction { address: offset as u16, opcode })
        } else {
            Ok(
                RecordView {
                    address: offset as u16,
                    bytes_consumed: (1 + length) as u8,
                    text: instruction_text(
                        operation,
                        operand_byte(buffer, offset, 1, length),
                        operand_byte(buffer, offset, 2, length),
                    ),
                },
            )
        }
    }
}

/// The instructions of `buffer` from `offset` on, in ascending order of
/// address, up to the end of the buffer or to the first place where none
/// can be decoded.
pub open spec fn listing(buffer: Seq<u8>, offset: int) -> Seq<RecordView>
    decreases buffer.len() - offset,
{
    if 0 <= offset < buffer.len() {
        match decode(buffer, offset) {
            Ok(record) => seq![record] + listing(buffer, offset + record.bytes_consumed),
            Err(_) => Seq::<RecordView>::empty(),
        }
    } else {
        Seq::<RecordView>::empty()
    }
}

/// Why `listing` stopped before the end of the buffer, if it did.
pub open spec fn listing_error(buffer: Seq<u8>, offset: int) -> Option<DecodeError>
    decreases buffer.len() - offset,
{
    if 0 <= offset < buffer.len() {
        match decode(buffer, offset) {
            Ok(record) => listing_error(buffer, offset + record.bytes_consumed),
            Err(error) => Some(error),
        }
    } else {
        None
    }
}

/// The records of a vector as mathematical values.
pub open spec fn record_views(records: Seq<DisassemblyRecord>) -> Seq<RecordView> {
    Seq::new(records.len(), |i: int| records[i]@)
}

/// The decoded instructions of a buffer, and why decoding stopped early if it did.
#[derive(Debug, PartialEq, Eq)]
pub struct Disassembly {
    pub records: Vec<DisassemblyRecord>,
    pub error: Option<DecodeError>,
}

fn hex_digit(digit: u8) -> (text: &'static str)
    ensures
        text@ == hex_digit_text(digit),
{
    match digit {
        0 => "0",
        1 => "1",
        2 => "2",
        3 => "3",
        4 => "4",
        5 => "5",
        6 => "6",
        7 => "7",
        8 => "8",
        9 => "9",
        10 => "a",
        11 => "b",
        12 => "c",
        13 => "d",
        14 => "e",
        _ => "f",
    }
}

/// A byte as two lower-case hex digits.
pub fn hex_byte(byte: u8) -> (text: String)
    ensures
        text@ == hex_byte_text(byte),
{
    let mut text = String::from_str(hex_digit(byte / 16));
    text.append(hex_digit(byte % 16));
    text
}

/// A 16-bit operand as four hex digits, high byte first.
pub fn hex_word(high: u8, low: u8) -> (text: String)
    ensures
        text@ == hex_word_text(high, low),
{
    let mut text = hex_byte(high);
    let low_text = hex_byte(low);
    text.append(low_text.as_str());
    text
}

impl Register {
    /// The name of the operand in assembly text.
    pub fn name(self) -> (name: &'static str)
        ensures
            name@ == register_name(self),
    {
        match self {
            Register::B => "B",
            Register::C => "C",
            Register::D => "D",
            Register::E => "E",
            Register::H => "H",
            Register::L => "L",
            Register::M => "M",
            Register::A => "A",
        }
    }
}

impl RegisterPair {
    /// The name of the pair in assembly text.
    pub fn name(self) -> (name: &'static str)
        ensures
            name@ == pair_name(self),
    {
        match self {
            RegisterPair::BC => "B",
            RegisterPair::DE => "D",
            RegisterPair::HL => "H",
            RegisterPair::SP => "SP",
        }
    }
}

impl StackPair {
    /// The name of the pair in assembly text.
    pub fn name(self) -> (name: &'static str)
        ensures
            name@ == stack_pair_name(self),
    {
        match self {
            StackPair::BC => "B",
            StackPair::DE => "D",
            StackPair::HL => "H",
            StackPair::PSW => "PSW",
        }
    }
}

/// `first`, a comma, `second`.
fn pair_of_operands(first: &str, second: &str) -> (text: String)
    ensures
        text@ == first@ + ","@ + second@,
{
    let mut text = String::from_str(first);
    text.append(",");
    text.append(second);
    text
}

/// The operands of `operation` as text, or `None` where it has none.
fn operands(operation: Operation, lo: u8, hi: u8) -> (text: Option<String>)
    ensures
        text is Some <==> has_operands(operation),
        text matches Some(t) ==> t@ == operands_text(operation, lo, hi),
{
    match operation {
        Operation::Lxi(rp) => {
            let word = hex_word(hi, lo);
            Some(pair_of_operands(rp.name(), word.as_str()))
        },
        Operation::Stax(rp)
        | Operation::Ldax(rp)
        | Operation::Inx(rp)
        | Operation::Dcx(rp)
        | Operation::Dad(rp) => Some(String::from_str(rp.name())),
        Operation::Shld
        | Operation::Lhld
        | Operation::Sta
        | Operation::Lda
        | Operation::Jmp
        | Operation::JmpIf(_)
        | Operation::Call
        | Operation::CallIf(_) => Some(hex_word(hi, lo)),
        Operation::Inr(r) | Operation::Dcr(r) | Operation::Alu(_, r) => Some(
            String::from_str(r.name()),
        ),
        Operation::Mvi(r) => {
            let byte = hex_byte(lo);
            Some(pair_of_operands(r.name(), byte.as_str()))
        },
        Operation::Mov(to, from) => Some(pair_of_operands(to.name(), from.name())),
        Operation::AluImm(_) | Operation::In | Operation::Out => Some(hex_byte(lo)),
        Operation::Rst(n) => Some(String::from_str(hex_digit(n))),
        Operation::Push(pair) | Operation::Pop(pair) => Some(String::from_str(pair.name())),
        _ => None,
    }
}

/// The text of an instruction with the given operand bytes.
pub fn format_instruction(operation: Operation, lo: u8, hi: u8) -> (text: String)
    ensures
        text@ == instruction_text(operation, lo, hi),
{
    let mut text = String::from_str(operation.mnemonic());
    match operands(operation, lo, hi) {
        Some(operand_text) => {
            text.append("\t");
            text.append(operand_text.as_str());
        },
        None => {},
    }
    text
}

/// Decodes the instruction that starts at `offset` of `buffer`.
pub fn decode_one(buffer: &[u8], offset: usize) -> (result: Result<DisassemblyRecord, DecodeError>)
    ensures
        match result {
            Ok(record) => decode(buffer@, offset as int) == Ok::<RecordView, DecodeError>(record@),
            Err(error) => decode(buffer@, offset as int) == Err::<RecordView, DecodeError>(error),
        },
{
    if offset >= buffer.len() || offset > 0xffff {
        return Err(DecodeError::OutOfBounds { offset });
    }
    let opcode: u8 = buffer[offset];
    let descriptor = lookup(opcode);
    let length: usize = descriptor.operand_length as usize;
    if offset + length >= buffer.len() {
        return Err(DecodeError::TruncatedInstruction { address: offset as u16, opcode });
    }
    let lo: u8 = if length >= 1 {
        buffer[offset + 1]
    } else {
        0
    };
    let hi: u8 = if length >= 2 {
        buffer[offset + 2]
    } else {
        0
    };
    Ok(
        DisassemblyRecord {
            address: offset as u16,
            bytes_consumed: 1 + descriptor.operand_length,
            text: format_instruction(descriptor.operation, lo, hi),
        },
    )
}

/// Decodes `buffer` from `offset` on, one instruction after the other.
pub fn disassemble_from(buffer: &[u8], offset: usize) -> (result: Disassembly)
    ensures
        record_views(result.records@) == listing(buffer@, offset as int),
        result.error == listing_error(buffer@, offset as int),
{
    let mut records: Vec<DisassemblyRecord> = Vec::new();
    let mut error: Option<DecodeError> = None;
    let mut at: usize = offset;
    assert(record_views(records@) =~= Seq::<RecordView>::empty());
    while at < buffer.len() && error.is_none()
        invariant
            offset <= at,
            listing(buffer@, offset as int) == record_views(records@) + if error is None {
                listing(buffer@, at as int)
            } else {
                Seq::<RecordView>::empty()
            },
            listing_error(buffer@, offset as int) == if error is None {
                listing_error(buffer@, at as int)
            } else {
                error
            },
        decreases buffer@.len() - at + if error is None { 1int } else { 0int },
    {
        let ghost before = record_views(records@);
        match decode_one(buffer, at) {
            Ok(record) => {
                let ghost view = record@;
                at = at + record.bytes_consumed as usize;
                records.push(record);
                assert(record_views(records@) =~= before + seq![view]);
                assert(before + (seq![view] + listing(buffer@, at as int)) =~= (before + seq![view])
                    + listing(buffer@, at as int));
            },
            Err(stopped) => {
                error = Some(stopped);
                assert(before + Seq::<RecordView>::empty() =~= before);
            },
        }
    }
    assert(record_views(records@) + Seq::<RecordView>::empty() =~= record_views(records@));
    Disassembly { records, error }
}

/// Decodes the whole of `buffer`.
pub fn disassemble(buffer: &[u8]) -> (result: Disassembly)
    ensures
        record_views(result.records@) == listing(buffer@, 0),
        result.error == listing_error(buffer@, 0),
{
    disassemble_from(buffer, 0)
}

/// Decoding depends on nothing but the bytes: two buffers with the same
/// bytes decode to the same records and stop for the same reason, so
/// decoding a buffer twice gives the same listing twice.
pub proof fn lemma_decoding_repeats(first: Seq<u8>, second: Seq<u8>, offset: int)
    requires
        first.len() == second.len(),
        forall|i: int| 0 <= i < first.len() ==> first[i] == second[i],
    ensures
        decode(first, offset) == decode(second, offset),
        listing(first, offset) == listing(second, offset),
        listing_error(first, offset) == listing_error(second, offset),
{
    assert(first =~= second);
}

/// A listing is finite and in ascending order of address: it starts at
/// `offset`, each record starts where the one before it ends, and there are
/// no more records than bytes left in the buffer.
pub proof fn lemma_listing_ascends(buffer: Seq<u8>, offset: int)
    requires
        0 <= offset,
    ensures
        listing(buffer, offset).len() <= buffer.len(),
        offset < buffer.len() ==> listing(buffer, offset).len() <= buffer.len() - offset,
        listing(buffer, offset).len() > 0 ==> listing(buffer, offset)[0].address == offset,
        forall|i: int|
            0 <= i < listing(buffer, offset).len() - 1 ==> (#[trigger] listing(
                buffer,
                offset,
            )[i + 1]).address == listing(buffer, offset)[i].address + listing(
                buffer,
                offset,
            )[i].bytes_consumed,
    decreases buffer.len() - offset,
{
    if offset < buffer.len() {
        match decode(buffer, offset) {
            Ok(record) => {
                let next = offset + record.bytes_consumed;
                let rest = listing(buffer, next);
                lemma_listing_ascends(buffer, next);
                assert(listing(buffer, offset) == seq![record] + rest);
                assert forall|i: int| 0 <= i < listing(buffer, offset).len() - 1 implies (
                #[trigger] listing(buffer, offset)[i + 1]).address == listing(
                    buffer,
                    offset,
                )[i].address + listing(buffer, offset)[i].bytes_consumed by {
                    if i > 0 {
                        assert(listing(buffer, offset)[i + 1] == rest[i - 1 + 1]);
                        assert(listing(buffer, offset)[i] == rest[i - 1]);
                    } else {
                        assert(listing(buffer, offset)[1] == rest[0]);
                    }
                }
            },
            Err(_) => {},
        }
    }
}

/// A listing can be taken up again at any of its records: decoding from the
/// address of record `index` gives the rest of the listing from that record on.
pub proof fn lemma_listing_restarts(buffer: Seq<u8>, offset: int, index: int)
    requires
        0 <= offset,
        0 <= index < listing(buffer, offset).len(),
    ensures
        listing(buffer, listing(buffer, offset)[index].address as int) == listing(
            buffer,
            offset,
        ).skip(index),
    decreases index,
{
    lemma_listing_ascends(buffer, offset);
    let whole = listing(buffer, offset);
    if index == 0 {
        assert(whole.skip(0) =~= whole);
    } else {
        match decode(buffer, offset) {
            Ok(record) => {
                let next = offset + record.bytes_consumed;
                let rest = listing(buffer, next);
                assert(whole == seq![record] + rest);
                assert(whole[index] == rest[index - 1]);
                lemma_listing_restarts(buffer, next, index - 1);
                assert(whole.skip(index) =~= rest.skip(index - 1));
            },
            Err(_) => {},
        }
    }
}

} // verus!
