//! The instruction set: the opcode numbering, its decoded form, and one
//! bounds-checked operation per instruction.
//!
//! Arithmetic on the accumulator wraps on overflow, the native
//! two's-complement behaviour of the machine word; division truncates
//! toward zero.

use vstd::prelude::*;

use crate::machine::{Mix, MixError, MixView, MEMORY_SIZE};

verus! {

/// Opcode word of HALT.
pub const HLT: i32 = 0;

/// Opcode word of LOAD-A.
pub const LDA: i32 = 1;

/// Opcode word of STORE-A.
pub const STA: i32 = 2;

/// Opcode word of ADD.
pub const ADD: i32 = 3;

/// Opcode word of SUB.
pub const SUB: i32 = 4;

/// Opcode word of DIV.
pub const DIV: i32 = 5;

/// Opcode word of JUMP.
pub const JMP: i32 = 6;

/// Opcode word of JUMP-ZERO.
pub const JZ: i32 = 7;

/// Opcode word of JUMP-NEG.
pub const JL: i32 = 8;

/// Opcode word of COMPARE.
pub const CMP: i32 = 9;

/// The closed set of instructions, matched exhaustively wherever a fetched
/// word is dispatched.
#[derive(Clone, Copy, Debug, PartialEq, Eq, Structural)]
pub enum Opcode {
    /// Stop the execution loop.
    Halt,
    /// A <- memory[addr].
    LoadA,
    /// memory[addr] <- A.
    StoreA,
    /// A <- A + memory[addr], wrapping.
    Add,
    /// A <- A - memory[addr], wrapping.
    Sub,
    /// A <- A / memory[addr], truncating toward zero, wrapping.
    Div,
    /// program counter <- addr.
    Jump,
    /// program counter <- addr iff A == 0.
    JumpZero,
    /// program counter <- addr iff A < 0.
    JumpNeg,
    /// comparison flag <- A - memory[addr], wrapping.
    Compare,
}

/// The instruction a word names, or `None` for a word that names none.
pub open spec fn spec_decode(word: i32) -> Option<Opcode> {
    if word == HLT {
        Some(Opcode::Halt)
    } else if word == LDA {
        Some(Opcode::LoadA)
    } else if word == STA {
        Some(Opcode::StoreA)
    } else if word == ADD {
        Some(Opcode::Add)
    } else if word == SUB {
        Some(Opcode::Sub)
    } else if word == DIV {
        Some(Opcode::Div)
    } else if word == JMP {
        Some(Opcode::Jump)
    } else if word == JZ {
        Some(Opcode::JumpZero)
    } else if word == JL {
        Some(Opcode::JumpNeg)
    } else if word == CMP {
        Some(Opcode::Compare)
    } else {
        None
    }
}

/// Decodes a fetched word into an instruction.
pub fn decode(word: i32) -> (r: Option<Opcode>)
    ensures
        r == spec_decode(word),
{
    if word == HLT {
        Some(Opcode::Halt)
    } else if word == LDA {
        Some(Opcode::LoadA)
    } else if word == STA {
        Some(Opcode::StoreA)
    } else if word == ADD {
        Some(Opcode::Add)
    } else if word == SUB {
        Some(Opcode::Sub)
    } else if word == DIV {
        Some(Opcode::Div)
    } else if word == JMP {
        Some(Opcode::Jump)
    } else if word == JZ {
        Some(Opcode::JumpZero)
    } else if word == JL {
        Some(Opcode::JumpNeg)
    } else if word == CMP {
        Some(Opcode::Compare)
    } else {
        None
    }
}

/// The quotient of `a` and `b`, truncated toward zero, wrapped to the
/// machine word: the one overflowing case, `i32::MIN / -1`, comes out as
/// `i32::MIN`.
pub open spec fn div_wrapped(a: i32, b: i32) -> i32
    recommends
        b != 0,
{
    match a.checked_div(b) {
        Some(q) => q,
        None => i32::MIN,
    }
}

impl Mix {
    /// LOAD-A: loads the memory word at `address` into the accumulator, or
    /// reports `OutOfRange` and changes nothing when `address` lies outside
    /// `[0, MEMORY_SIZE)`.
    pub fn lda(&mut self, address: usize) -> (r: Result<(), MixError>)
        requires
            old(self).wf(),
        ensures
            final(self).wf(),
            address < MEMORY_SIZE ==> (r == Ok::<(), MixError>(()) && final(self)@ == (MixView {
                a: old(self)@.memory[address as int],
                ..old(self)@
            })),
            address >= MEMORY_SIZE ==> (r == Err::<(), MixError>(MixError::OutOfRange)
                && final(self)@ == old(self)@),
    {
        match self.read_memory(address) {
            Ok(value) => {
                self.load_a(value);
                Ok(())
            },
            Err(e) => Err(e),
        }
    }

    /// STORE-A: stores the accumulator into the memory word at `address`,
    /// or reports `OutOfRange` and changes nothing when `address` lies
    /// outside `[0, MEMORY_SIZE)`.
    pub fn sta(&mut self, address: usize) -> (r: Result<(), MixError>)
        requires
            old(self).wf(),
        ensures
            final(self).wf(),
            address < MEMORY_SIZE ==> (r == Ok::<(), MixError>(()) && final(self)@ == (MixView {
                memory: old(self)@.memory.update(address as int, old(self)@.a),
                ..old(self)@
            })),
            address >= MEMORY_SIZE ==> (r == Err::<(), MixError>(MixError::OutOfRange)
                && final(self)@ == old(self)@),
    {
        let a = self.read_a();
        self.set_memory(address, a)
    }

    /// ADD: adds the memory word at `address` to the accumulator, wrapping
    /// on overflow, or reports `OutOfRange` and changes nothing when
    /// `address` lies outside `[0, MEMORY_SIZE)`.
    pub fn add(&mut self, address: usize) -> (r: Result<(), MixError>)
        requires
            old(self).wf(),
        ensures
            final(self).wf(),
            address < MEMORY_SIZE ==> (r == Ok::<(), MixError>(()) && final(self)@ == (MixView {
                a: old(self)@.a.wrapping_add(old(self)@.memory[address as int]),
                ..old(self)@
            })),
            address >= MEMORY_SIZE ==> (r == Err::<(), MixError>(MixError::OutOfRange)
                && final(self)@ == old(self)@),
    {
        match self.read_memory(address) {
            Ok(value) => {
                let a = self.read_a();
                self.load_a(a.wrapping_add(value));
                Ok(())
            },
            Err(e) => Err(e),
        }
    }

    /// SUB: subtracts the memory word at `address` from the accumulator,
    /// wrapping on overflow, or reports `OutOfRange` and changes nothing
    /// when `address` lies outside `[0, MEMORY_SIZE)`.
    pub fn sub(&mut self, address: usize) -> (r: Result<(), MixError>)
        requires
            old(self).wf(),
        ensures
            final(self).wf(),
            address < MEMORY_SIZE ==> (r == Ok::<(), MixError>(()) && final(self)@ == (MixView {
                a: old(self)@.a.wrapping_sub(old(self)@.memory[address as int]),
                ..old(self)@
            })),
            address >= MEMORY_SIZE ==> (r == Err::<(), MixError>(MixError::OutOfRange)
                && final(self)@ == old(self)@),
    {
        match self.read_memory(address) {
            Ok(value) => {
                let a = self.read_a();
                self.load_a(a.wrapping_sub(value));
                Ok(())
            },
            Err(e) => Err(e),
        }
    }

    /// DIV: divides the accumulator by the memory word at `address`,
    /// truncating toward zero and wrapping on the one overflowing quotient.
    /// Reports `OutOfRange` when `address` lies outside `[0, MEMORY_SIZE)`
    /// and `DivideByZero` when the divisor word is zero; either failure
    /// changes nothing, the accumulator included.
    pub fn div(&mut self, address: usize) -> (r: Result<(), MixError>)
        requires
            old(self).wf(),
        ensures
            final(self).wf(),
            address < MEMORY_SIZE && old(self)@.memory[address as int] != 0 ==> (r == Ok::<
                (),
                MixError,
            >(()) && final(self)@ == (MixView {
                a: div_wrapped(old(self)@.a, old(self)@.memory[address as int]),
                ..old(self)@
            })),
            address < MEMORY_SIZE && old(self)@.memory[address as int] == 0 ==> (r == Err::<
                (),
                MixError,
            >(MixError::DivideByZero) && final(self)@ == old(self)@),
            address >= MEMORY_SIZE ==> (r == Err::<(), MixError>(MixError::OutOfRange)
                && final(self)@ == old(self)@),
    {
        match self.read_memory(address) {
            Ok(value) => {
                if value == 0 {
                    return Err(MixError::DivideByZero);
                }
                let a = self.read_a();
                let quotient = match a.checked_div(value) {
                    Some(q) => q,
                    None => i32::MIN,
                };
                self.load_a(quotient);
                Ok(())
            },
            Err(e) => Err(e),
        }
    }

    /// JUMP: moves the program counter to `address`, or reports
    /// `OutOfRange` and changes nothing when `address` lies outside
    /// `[0, MEMORY_SIZE)`.
    pub fn jmp(&mut self, address: usize) -> (r: Result<(), MixError>)
        ensures
            address < MEMORY_SIZE ==> (r == Ok::<(), MixError>(()) && final(self)@ == (MixView {
                location: address as int,
                ..old(self)@
            })),
            address >= MEMORY_SIZE ==> (r == Err::<(), MixError>(MixError::OutOfRange)
                && final(self)@ == old(self)@),
    {
        if address >= MEMORY_SIZE {
            Err(MixError::OutOfRange)
        } else {
            self.set_location(address as i32)
        }
    }

    /// JUMP-ZERO: moves the program counter to `address` exactly when the
    /// accumulator is zero, and otherwise changes nothing. Reports
    /// `OutOfRange`, changing nothing, when the condition holds and
    /// `address` lies outside `[0, MEMORY_SIZE)`.
    pub fn jz(&mut self, address: usize) -> (r: Result<(), MixError>)
        ensures
            old(self)@.a == 0 && address < MEMORY_SIZE ==> (r == Ok::<(), MixError>(())
                && final(self)@ == (MixView { location: address as int, ..old(self)@ })),
            old(self)@.a == 0 && address >= MEMORY_SIZE ==> (r == Err::<(), MixError>(
                MixError::OutOfRange,
            ) && final(self)@ == old(self)@),
            old(self)@.a != 0 ==> (r == Ok::<(), MixError>(()) && final(self)@ == old(self)@),
    {
        if self.read_a() == 0 {
            self.jmp(address)
        } else {
            Ok(())
        }
    }

    /// JUMP-NEG: moves the program counter to `address` exactly when the
    /// accumulator is negative, and otherwise changes nothing. Reports
    /// `OutOfRange`, changing nothing, when the condition holds and
    /// `address` lies outside `[0, MEMORY_SIZE)`.
    pub fn jl(&mut self, address: usize) -> (r: Result<(), MixError>)
        ensures
            old(self)@.a < 0 && address < MEMORY_SIZE ==> (r == Ok::<(), MixError>(())
                && final(self)@ == (MixView { location: address as int, ..old(self)@ })),
            old(self)@.a < 0 && address >= MEMORY_SIZE ==> (r == Err::<(), MixError>(
                MixError::OutOfRange,
            ) && final(self)@ == old(self)@),
            old(self)@.a >= 0 ==> (r == Ok::<(), MixError>(()) && final(self)@ == old(self)@),
    {
        if self.read_a() < 0 {
            self.jmp(address)
        } else {
            Ok(())
        }
    }

    /// COMPARE: sets the comparison flag to the accumulator minus the
    /// memory word at `address`, wrapping on overflow, or reports
    /// `OutOfRange` and changes nothing when `address` lies outside
    /// `[0, MEMORY_SIZE)`.
    pub fn cmp(&mut self, address: usize) -> (r: Result<(), MixError>)
        requires
            old(self).wf(),
        ensures
            final(self).wf(),
            address < MEMORY_SIZE ==> (r == Ok::<(), MixError>(()) && final(self)@ == (MixView {
                comparison: old(self)@.a.wrapping_sub(old(self)@.memory[address as int]),
                ..old(self)@
            })),
            address >= MEMORY_SIZE ==> (r == Err::<(), MixError>(MixError::OutOfRange)
                && final(self)@ == old(self)@),
    {
        match self.read_memory(address) {
            Ok(value) => {
                let a = self.read_a();
                self.set_comparison(a.wrapping_sub(value));
                Ok(())
            },
            Err(e) => Err(e),
        }
    }
}

} // verus!
