//! The machine state: registers, flags, memory and the two latches.
//!
//! `Machine` is the mathematical state that contracts speak of; `State8080`
//! is the state that runs. A `State8080` always holds between one byte and
//! 64 KiB of memory, and its program counter always points into that memory.

use crate::flags::{pack_flags, pack_flags_spec, unpack_flags, unpack_flags_spec, ConditionFlags};
use crate::instruction::{Register, RegisterPair, StackPair};
use vstd::prelude::*;

verus! {

/// Size of the 8080 address space in bytes.
pub const ADDRESS_SPACE: usize = 0x10000;

/// The 16-bit value whose high byte is `high` and whose low byte is `low`.
#[verifier::opaque]
pub open spec fn word(high: u8, low: u8) -> u16 {
    (high * 256 + low) as u16
}

#[verifier::opaque]
pub open spec fn high_byte(value: u16) -> u8 {
    (value / 256) as u8
}

#[verifier::opaque]
pub open spec fn low_byte(value: u16) -> u8 {
    (value % 256) as u8
}

/// The state of an 8080 as a mathematical value.
pub struct Machine {
    pub a: u8,
    pub b: u8,
    pub c: u8,
    pub d: u8,
    pub e: u8,
    pub h: u8,
    pub l: u8,
    pub sp: u16,
    pub pc: u16,
    pub flags: ConditionFlags,
    pub memory: Seq<u8>,
    pub int_enable: bool,
    pub running: bool,
}

impl Machine {
    /// Memory is between one byte and 64 KiB long and holds the program counter.
    pub open spec fn wf(self) -> bool {
        &&& 0 < self.memory.len() <= ADDRESS_SPACE
        &&& self.pc < self.memory.len()
    }

    pub open spec fn in_memory(self, address: int) -> bool {
        0 <= address < self.memory.len()
    }

    pub open spec fn bc(self) -> u16 {
        word(self.b, self.c)
    }

    pub open spec fn de(self) -> u16 {
        word(self.d, self.e)
    }

    pub open spec fn hl(self) -> u16 {
        word(self.h, self.l)
    }

    /// Whether operand `r` can be read and written: always for a register,
    /// for `M` when HL points into memory.
    pub open spec fn register_accessible(self, r: Register) -> bool {
        r == Register::M ==> self.in_memory(self.hl() as int)
    }

    pub open spec fn register(self, r: Register) -> u8 {
        match r {
            Register::B => self.b,
            Register::C => self.c,
            Register::D => self.d,
            Register::E => self.e,
            Register::H => self.h,
            Register::L => self.l,
            Register::M => self.memory[self.hl() as int],
            Register::A => self.a,
        }
    }

    pub open spec fn with_register(self, r: Register, value: u8) -> Machine {
        match r {
            Register::B => Machine { b: value, ..self },
            Register::C => Machine { c: value, ..self },
            Register::D => Machine { d: value, ..self },
            Register::E => Machine { e: value, ..self },
            Register::H => Machine { h: value, ..self },
            Register::L => Machine { l: value, ..self },
            Register::M => self.store(self.hl() as int, value),
            Register::A => Machine { a: value, ..self },
        }
    }

    pub open spec fn pair(self, rp: RegisterPair) -> u16 {
        match rp {
            RegisterPair::BC => self.bc(),
            RegisterPair::DE => self.de(),
            RegisterPair::HL => self.hl(),
            RegisterPair::SP => self.sp,
        }
    }

    pub open spec fn with_pair(self, rp: RegisterPair, value: u16) -> Machine {
        match rp {
            RegisterPair::BC => Machine { b: high_byte(value), c: low_byte(value), ..self },
            RegisterPair::DE => Machine { d: high_byte(value), e: low_byte(value), ..self },
            RegisterPair::HL => Machine { h: high_byte(value), l: low_byte(value), ..self },
            RegisterPair::SP => Machine { sp: value, ..self },
        }
    }

    /// The word that PUSH stores for `pair`; for `PSW` the accumulator over the flag byte.
    pub open spec fn stack_pair(self, pair: StackPair) -> u16 {
        match pair {
            StackPair::BC => self.bc(),
            StackPair::DE => self.de(),
            StackPair::HL => self.hl(),
            StackPair::PSW => word(self.a, pack_flags_spec(self.flags)),
        }
    }

    /// The state after POP has loaded `value` into `pair`.
    pub open spec fn with_stack_pair(self, pair: StackPair, value: u16) -> Machine {
        match pair {
            StackPair::BC => self.with_pair(RegisterPair::BC, value),
            StackPair::DE => self.with_pair(RegisterPair::DE, value),
            StackPair::HL => self.with_pair(RegisterPair::HL, value),
            StackPair::PSW => Machine {
                a: high_byte(value),
                flags: unpack_flags_spec(low_byte(value)),
                ..self
            },
        }
    }

    pub open spec fn store(self, address: int, value: u8) -> Machine {
        Machine { memory: self.memory.update(address, value), ..self }
    }

    /// Low byte at `address`, high byte at `address + 1`.
    pub open spec fn store_word(self, address: int, value: u16) -> Machine {
        self.store(address, low_byte(value)).store(address + 1, high_byte(value))
    }

    pub open spec fn load_word(self, address: int) -> u16 {
        word(self.memory[address + 1], self.memory[address])
    }

    /// The state after `image` has been copied to memory from `origin` on.
    pub open spec fn with_image(self, image: Seq<u8>, origin: int) -> Machine {
        Machine {
            memory: Seq::new(
                self.memory.len(),
                |i: int|
                    if origin <= i < origin + image.len() {
                        image[i - origin]
                    } else {
                        self.memory[i]
                    },
            ),
            ..self
        }
    }
}

/// The state after reset with the given memory and program counter: registers,
/// stack pointer and flags clear, interrupts disabled, running.
pub open spec fn reset_machine(memory: Seq<u8>, pc: u16) -> Machine {
    Machine {
        a: 0,
        b: 0,
        c: 0,
        d: 0,
        e: 0,
        h: 0,
        l: 0,
        sp: 0,
        pc,
        flags: ConditionFlags {
            zero: false,
            sign: false,
            parity: false,
            carry: false,
            aux_carry: false,
        },
        memory,
        int_enable: false,
        running: true,
    }
}

/// Why a state could not be set up as asked.
#[derive(Clone, Copy, Debug, PartialEq, Eq, Structural)]
pub enum LoadError {
    /// The memory holds no byte.
    EmptyMemory,
    /// The memory is larger than the address space.
    MemoryTooLarge,
    /// The program counter does not point into memory.
    PcOutOfBounds,
    /// The image does not fit into memory at the origin.
    ImageOutOfBounds,
}

/// The state of an 8080 that can be run.
#[derive(Debug, PartialEq, Eq)]
pub struct State8080 {
    pub(crate) a: u8,
    pub(crate) b: u8,
    pub(crate) c: u8,
    pub(crate) d: u8,
    pub(crate) e: u8,
    pub(crate) h: u8,
    pub(crate) l: u8,
    pub(crate) sp: u16,
    pub(crate) pc: u16,
    pub(crate) condition_flags: ConditionFlags,
    pub(crate) memory: Vec<u8>,
    pub(crate) int_enable: bool,
    pub(crate) running: bool,
}

impl View for State8080 {
    type V = Machine;

    open(crate) spec fn view(&self) -> Machine {
        Machine {
            a: self.a,
            b: self.b,
            c: self.c,
            d: self.d,
            e: self.e,
            h: self.h,
            l: self.l,
            sp: self.sp,
            pc: self.pc,
            flags: self.condition_flags,
            memory: self.memory@,
            int_enable: self.int_enable,
            running: self.running,
        }
    }
}

impl Clone for State8080 {
    fn clone(&self) -> (copy: Self)
        ensures
            copy@ == self@,
    {
        proof {
            use_type_invariant(self);
        }
        let memory = self.memory.clone();
        assert(memory@ =~= self.memory@);
        State8080 {
            a: self.a,
            b: self.b,
            c: self.c,
            d: self.d,
            e: self.e,
            h: self.h,
            l: self.l,
            sp: self.sp,
            pc: self.pc,
            condition_flags: self.condition_flags,
            memory,
            int_enable: self.int_enable,
            running: self.running,
        }
    }
}

pub(crate) fn make_word(high: u8, low: u8) -> (value: u16)
    ensures
        value == word(high, low),
{
    proof {
        reveal(word);
    }
    high as u16 * 256 + low as u16
}

pub(crate) fn high_of(value: u16) -> (byte: u8)
    ensures
        byte == high_byte(value),
{
    proof {
        reveal(high_byte);
    }
    (value / 256) as u8
}

pub(crate) fn low_of(value: u16) -> (byte: u8)
    ensures
        byte == low_byte(value),
{
    proof {
        reveal(low_byte);
    }
    (value % 256) as u8
}

/// Splitting a word and joining the halves gives the word back, and the other way round.
pub proof fn lemma_word_halves(value: u16, high: u8, low: u8)
    ensures
        word(high_byte(value), low_byte(value)) == value,
        high_byte(word(high, low)) == high,
        low_byte(word(high, low)) == low,
{
    reveal(word);
    reveal(high_byte);
    reveal(low_byte);
}

impl State8080 {
    #[verifier::type_invariant]
    pub(crate) open(crate) spec fn inv(self) -> bool {
        self@.wf()
    }

    /// A state with 64 KiB of zeroed memory, reset to address 0.
    pub fn new() -> (state: State8080)
        ensures
            state@ == reset_machine(Seq::new(ADDRESS_SPACE as nat, |i: int| 0u8), 0),
            state@.wf(),
    {
        let memory: Vec<u8> = vec![0u8; ADDRESS_SPACE];
        assert(memory@ =~= Seq::new(ADDRESS_SPACE as nat, |i: int| 0u8));
        State8080 {
            a: 0,
            b: 0,
            c: 0,
            d: 0,
            e: 0,
            h: 0,
            l: 0,
            sp: 0,
            pc: 0,
            condition_flags: ConditionFlags {
                zero: false,
                sign: false,
                parity: false,
                carry: false,
                aux_carry: false,
            },
            memory,
            int_enable: false,
            running: true,
        }
    }

    /// A state with the given memory, reset to address `pc`.
    pub fn with_memory(memory: Vec<u8>, pc: u16) -> (result: Result<State8080, LoadError>)
        ensures
            match result {
                Ok(state) => {
                    &&& 0 < memory@.len() <= ADDRESS_SPACE
                    &&& pc < memory@.len()
                    &&& state@ == reset_machine(memory@, pc)
                    &&& state@.wf()
                },
                Err(LoadError::EmptyMemory) => memory@.len() == 0,
                Err(LoadError::MemoryTooLarge) => memory@.len() > ADDRESS_SPACE,
                Err(LoadError::PcOutOfBounds) => 0 < memory@.len() <= ADDRESS_SPACE && pc
                    >= memory@.len(),
                Err(LoadError::ImageOutOfBounds) => false,
            },
    {
        if memory.len() == 0 {
            Err(LoadError::EmptyMemory)
        } else if memory.len() > ADDRESS_SPACE {
            Err(LoadError::MemoryTooLarge)
        } else if pc as usize >= memory.len() {
            Err(LoadError::PcOutOfBounds)
        } else {
            Ok(
                State8080 {
                    a: 0,
                    b: 0,
                    c: 0,
                    d: 0,
                    e: 0,
                    h: 0,
                    l: 0,
                    sp: 0,
                    pc,
                    condition_flags: ConditionFlags {
                        zero: false,
                        sign: false,
                        parity: false,
                        carry: false,
                        aux_carry: false,
                    },
                    memory,
                    int_enable: false,
                    running: true,
                },
            )
        }
    }

    /// Copies `image` into memory from address `origin` on. Where the image
    /// does not fit, nothing is copied.
    pub fn load(&mut self, image: &[u8], origin: u16) -> (result: Result<(), LoadError>)
        ensures
            match result {
                Ok(()) => {
                    &&& origin + image@.len() <= old(self)@.memory.len()
                    &&& final(self)@ == old(self)@.with_image(image@, origin as int)
                },
                Err(error) => {
                    &&& error == LoadError::ImageOutOfBounds
                    &&& origin + image@.len() > old(self)@.memory.len()
                    &&& final(self)@ == old(self)@
                },
            },
    {
        proof {
            use_type_invariant(&*self);
        }
        let start: usize = origin as usize;
        if start > self.memory.len() || image.len() > self.memory.len() - start {
            return Err(LoadError::ImageOutOfBounds);
        }
        let mut i: usize = 0;
        while i < image.len()
            invariant
                i <= image@.len(),
                start + image@.len() <= self.memory@.len(),
                self.memory@.len() == old(self).memory@.len(),
                self.inv(),
                self@ == (Machine { memory: self.memory@, ..old(self)@ }),
                forall|j: int|
                    0 <= j < self.memory@.len() ==> self.memory@[j] == if start <= j < start + i {
                        image@[j - start]
                    } else {
                        old(self).memory@[j]
                    },
            decreases image@.len() - i,
        {
            self.memory[start + i] = image[i];
            i = i + 1;
        }
        assert(self.memory@ =~= old(self)@.with_image(image@, origin as int).memory);
        Ok(())
    }

    pub fn a(&self) -> (value: u8)
        ensures
            value == self@.a,
    {
        self.a
    }

    pub fn b(&self) -> (value: u8)
        ensures
            value == self@.b,
    {
        self.b
    }

    pub fn c(&self) -> (value: u8)
        ensures
            value == self@.c,
    {
        self.c
    }

    pub fn d(&self) -> (value: u8)
        ensures
            value == self@.d,
    {
        self.d
    }

    pub fn e(&self) -> (value: u8)
        ensures
            value == self@.e,
    {
        self.e
    }

    pub fn h(&self) -> (value: u8)
        ensures
            value == self@.h,
    {
        self.h
    }

    pub fn l(&self) -> (value: u8)
        ensures
            value == self@.l,
    {
        self.l
    }

    pub fn sp(&self) -> (value: u16)
        ensures
            value == self@.sp,
    {
        self.sp
    }

    pub fn pc(&self) -> (value: u16)
        ensures
            value == self@.pc,
            value < self@.memory.len(),
    {
        proof {
            use_type_invariant(self);
        }
        self.pc
    }

    pub fn condition_flags(&self) -> (flags: ConditionFlags)
        ensures
            flags == self@.flags,
    {
        self.condition_flags
    }

    /// The interrupt-enable latch.
    pub fn int_enable(&self) -> (enabled: bool)
        ensures
            enabled == self@.int_enable,
    {
        self.int_enable
    }

    /// False once the machine has halted or met a fatal condition.
    pub fn is_running(&self) -> (running: bool)
        ensures
            running == self@.running,
    {
        self.running
    }

    pub fn memory(&self) -> (bytes: &Vec<u8>)
        ensures
            bytes@ == self@.memory,
            0 < bytes@.len() <= ADDRESS_SPACE,
    {
        proof {
            use_type_invariant(self);
        }
        &self.memory
    }

    /// The byte at `address`, or `None` where memory ends before it.
    pub fn read_memory(&self, address: u16) -> (byte: Option<u8>)
        ensures
            byte == if self@.in_memory(address as int) {
                Some(self@.memory[address as int])
            } else {
                None
            },
    {
        if (address as usize) < self.memory.len() {
            Some(self.memory[address as usize])
        } else {
            None
        }
    }

    /// The value of operand `r`, or `None` for `M` where HL points outside memory.
    pub fn register(&self, r: Register) -> (value: Option<u8>)
        ensures
            value == if self@.register_accessible(r) {
                Some(self@.register(r))
            } else {
                None
            },
    {
        if self.accessible(r) {
            Some(self.get(r))
        } else {
            None
        }
    }

    /// Sets operand `r` to `value`. For `M` where HL points outside memory
    /// nothing changes and `false` comes back.
    pub fn set_register(&mut self, r: Register, value: u8) -> (done: bool)
        ensures
            done == old(self)@.register_accessible(r),
            final(self)@ == if done {
                old(self)@.with_register(r, value)
            } else {
                old(self)@
            },
    {
        if self.accessible(r) {
            self.put(r, value);
            true
        } else {
            false
        }
    }

    pub fn register_pair(&self, rp: RegisterPair) -> (value: u16)
        ensures
            value == self@.pair(rp),
    {
        match rp {
            RegisterPair::BC => make_word(self.b, self.c),
            RegisterPair::DE => make_word(self.d, self.e),
            RegisterPair::HL => make_word(self.h, self.l),
            RegisterPair::SP => self.sp,
        }
    }

    pub fn set_register_pair(&mut self, rp: RegisterPair, value: u16)
        ensures
            final(self)@ == old(self)@.with_pair(rp, value),
    {
        proof {
            use_type_invariant(&*self);
        }
        match rp {
            RegisterPair::BC => {
                self.b = high_of(value);
                self.c = low_of(value);
            },
            RegisterPair::DE => {
                self.d = high_of(value);
                self.e = low_of(value);
            },
            RegisterPair::HL => {
                self.h = high_of(value);
                self.l = low_of(value);
            },
            RegisterPair::SP => {
                self.sp = value;
            },
        }
    }

    pub fn set_condition_flags(&mut self, flags: ConditionFlags)
        ensures
            final(self)@ == (Machine { flags, ..old(self)@ }),
    {
        proof {
            use_type_invariant(&*self);
        }
        self.condition_flags = flags;
    }

    /// Moves the program counter to `pc`. Where `pc` points outside memory
    /// nothing changes and `false` comes back.
    pub fn set_pc(&mut self, pc: u16) -> (done: bool)
        ensures
            done == old(self)@.in_memory(pc as int),
            final(self)@ == if done {
                Machine { pc, ..old(self)@ }
            } else {
                old(self)@
            },
    {
        proof {
            use_type_invariant(&*self);
        }
        if (pc as usize) < self.memory.len() {
            self.pc = pc;
            true
        } else {
            false
        }
    }

    pub(crate) fn set_int_enable(&mut self, enabled: bool)
        ensures
            final(self)@ == (Machine { int_enable: enabled, ..old(self)@ }),
    {
        proof {
            use_type_invariant(&*self);
        }
        self.int_enable = enabled;
    }

    pub(crate) fn stop(&mut self)
        ensures
            final(self)@ == (Machine { running: false, ..old(self)@ }),
    {
        proof {
            use_type_invariant(&*self);
        }
        self.running = false;
    }

    pub(crate) fn jump(&mut self, target: u32)
        requires
            old(self)@.in_memory(target as int),
        ensures
            final(self)@ == (Machine { pc: target as u16, ..old(self)@ }),
    {
        proof {
            use_type_invariant(&*self);
        }
        self.pc = target as u16;
    }

    pub(crate) fn memory_len(&self) -> (length: u32)
        ensures
            length == self@.memory.len(),
            self@.wf(),
    {
        proof {
            use_type_invariant(self);
        }
        self.memory.len() as u32
    }

    pub(crate) fn in_memory(&self, address: u32) -> (inside: bool)
        ensures
            inside == self@.in_memory(address as int),
    {
        (address as usize) < self.memory.len()
    }

    pub(crate) fn accessible(&self, r: Register) -> (ok: bool)
        ensures
            ok == self@.register_accessible(r),
    {
        match r {
            Register::M => (make_word(self.h, self.l) as usize) < self.memory.len(),
            _ => true,
        }
    }

    pub(crate) fn get(&self, r: Register) -> (value: u8)
        requires
            self@.register_accessible(r),
        ensures
            value == self@.register(r),
    {
        match r {
            Register::B => self.b,
            Register::C => self.c,
            Register::D => self.d,
            Register::E => self.e,
            Register::H => self.h,
            Register::L => self.l,
            Register::M => self.memory[make_word(self.h, self.l) as usize],
            Register::A => self.a,
        }
    }

    pub(crate) fn put(&mut self, r: Register, value: u8)
        requires
            old(self)@.register_accessible(r),
        ensures
            final(self)@ == old(self)@.with_register(r, value),
    {
        proof {
            use_type_invariant(&*self);
        }
        match r {
            Register::B => {
                self.b = value;
            },
            Register::C => {
                self.c = value;
            },
            Register::D => {
                self.d = value;
            },
            Register::E => {
                self.e = value;
            },
            Register::H => {
                self.h = value;
            },
            Register::L => {
                self.l = value;
            },
            Register::M => {
                let address: usize = make_word(self.h, self.l) as usize;
                self.memory[address] = value;
            },
            Register::A => {
                self.a = value;
            },
        }
    }

    pub(crate) fn stack_pair(&self, pair: StackPair) -> (value: u16)
        ensures
            value == self@.stack_pair(pair),
    {
        match pair {
            StackPair::BC => make_word(self.b, self.c),
            StackPair::DE => make_word(self.d, self.e),
            StackPair::HL => make_word(self.h, self.l),
            StackPair::PSW => make_word(self.a, pack_flags(self.condition_flags)),
        }
    }

    pub(crate) fn set_stack_pair(&mut self, pair: StackPair, value: u16)
        ensures
            final(self)@ == old(self)@.with_stack_pair(pair, value),
    {
        proof {
            use_type_invariant(&*self);
        }
        match pair {
            StackPair::BC => self.set_register_pair(RegisterPair::BC, value),
            StackPair::DE => self.set_register_pair(RegisterPair::DE, value),
            StackPair::HL => self.set_register_pair(RegisterPair::HL, value),
            StackPair::PSW => {
                self.a = high_of(value);
                self.condition_flags = unpack_flags(low_of(value));
            },
        }
    }

    pub(crate) fn store(&mut self, address: u32, value: u8)
        requires
            old(self)@.in_memory(address as int),
        ensures
            final(self)@ == old(self)@.store(address as int, value),
    {
        proof {
            use_type_invariant(&*self);
        }
        self.memory[address as usize] = value;
    }

    pub(crate) fn store_word(&mut self, address: u32, value: u16)
        requires
            old(self)@.in_memory(address as int),
            old(self)@.in_memory(address + 1),
        ensures
            final(self)@ == old(self)@.store_word(address as int, value),
    {
        proof {
            use_type_invariant(&*self);
        }
        self.memory[address as usize] = low_of(value);
        self.memory[address as usize + 1] = high_of(value);
    }

    pub(crate) fn load_byte(&self, address: u32) -> (value: u8)
        requires
            self@.in_memory(address as int),
        ensures
            value == self@.memory[address as int],
    {
        self.memory[address as usize]
    }

    pub(crate) fn load_word(&self, address: u32) -> (value: u16)
        requires
            self@.in_memory(address as int),
            self@.in_memory(address + 1),
        ensures
            value == self@.load_word(address as int),
    {
        proof {
            use_type_invariant(self);
        }
        make_word(self.memory[address as usize + 1], self.memory[address as usize])
    }
}

} // verus!
