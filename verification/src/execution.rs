//! The execution loop: fetch the word at the program counter, decode it,
//! dispatch to the instruction, and advance or redirect the program counter,
//! until a halt or the first error.
//!
//! `step_spec` is the machine's transition function: one instruction, stated
//! over the mathematical model. `execute` performs exactly that transition;
//! `run` iterates it under a caller-imposed step budget.

use vstd::prelude::*;

use crate::instructions::{spec_decode, decode, div_wrapped, Opcode};
use crate::machine::{Mix, MixError, MixView, inv, MEMORY_SIZE};

verus! {

/// The outcome of one fetch-decode-execute step from state `s`:
/// `Ok((s2, halted))` is the next state, with `halted` true exactly for a
/// halt instruction; `Err` is the error of a failing step, which leaves the
/// machine as it was.
///
/// The word at the program counter is the opcode; a word that names no
/// instruction is `UnknownOpcode`. Every other instruction takes its operand
/// from the following word, so a program counter with no following word is
/// `OutOfRange`. An instruction that neither halts nor redirects advances
/// the program counter two words, past the opcode and its operand; the
/// advanced counter, a redirected counter and every operand used as a memory
/// address must land in `[0, MEMORY_SIZE)`, else the step is `OutOfRange`.
/// All such bounds are checked before anything is changed, so a failing step
/// changes nothing.
pub open spec fn step_spec(s: MixView) -> Result<(MixView, bool), MixError>
    recommends
        inv(s),
{
    let w = s.memory[s.location + 1];
    let operand_ok = s.location + 1 < MEMORY_SIZE;
    let advance_ok = s.location + 2 < MEMORY_SIZE;
    let addr_ok = 0 <= w < MEMORY_SIZE;
    match spec_decode(s.memory[s.location]) {
        None => Err(MixError::UnknownOpcode),
        Some(Opcode::Halt) => if s.location + 1 < MEMORY_SIZE {
            Ok((MixView { location: s.location + 1, ..s }, true))
        } else {
            Err(MixError::OutOfRange)
        },
        Some(Opcode::LoadA) => if !operand_ok || !advance_ok || !addr_ok {
            Err(MixError::OutOfRange)
        } else {
            Ok(
                (
                    MixView { a: s.memory[w as int], location: s.location + 2, ..s },
                    false,
                ),
            )
        },
        Some(Opcode::StoreA) => if !operand_ok || !advance_ok || !addr_ok {
            Err(MixError::OutOfRange)
        } else {
            Ok(
                (
                    MixView {
                        memory: s.memory.update(w as int, s.a),
                        location: s.location + 2,
                        ..s
                    },
                    false,
                ),
            )
        },
        Some(Opcode::Add) => if !operand_ok || !advance_ok || !addr_ok {
            Err(MixError::OutOfRange)
        } else {
            Ok(
                (
                    MixView {
                        a: s.a.wrapping_add(s.memory[w as int]),
                        location: s.location + 2,
                        ..s
                    },
                    false,
                ),
            )
        },
        Some(Opcode::Sub) => if !operand_ok || !advance_ok || !addr_ok {
            Err(MixError::OutOfRange)
        } else {
            Ok(
                (
                    MixView {
                        a: s.a.wrapping_sub(s.memory[w as int]),
                        location: s.location + 2,
                        ..s
                    },
                    false,
                ),
            )
        },
        Some(Opcode::Div) => if !operand_ok || !advance_ok || !addr_ok {
            Err(MixError::OutOfRange)
        } else if s.memory[w as int] == 0 {
            Err(MixError::DivideByZero)
        } else {
            Ok(
                (
                    MixView {
                        a: div_wrapped(s.a, s.memory[w as int]),
                        location: s.location + 2,
                        ..s
                    },
                    false,
                ),
            )
        },
        Some(Opcode::Jump) => if !operand_ok || !addr_ok {
            Err(MixError::OutOfRange)
        } else {
            Ok((MixView { location: w as int, ..s }, false))
        },
        Some(Opcode::JumpZero) => if !operand_ok {
            Err(MixError::OutOfRange)
        } else if s.a == 0 {
            if addr_ok {
                Ok((MixView { location: w as int, ..s }, false))
            } else {
                Err(MixError::OutOfRange)
            }
        } else {
            if advance_ok {
                Ok((MixView { location: s.location + 2, ..s }, false))
            } else {
                Err(MixError::OutOfRange)
            }
        },
        Some(Opcode::JumpNeg) => if !operand_ok {
            Err(MixError::OutOfRange)
        } else if s.a < 0 {
            if addr_ok {
                Ok((MixView { location: w as int, ..s }, false))
            } else {
                Err(MixError::OutOfRange)
            }
        } else {
            if advance_ok {
                Ok((MixView { location: s.location + 2, ..s }, false))
            } else {
                Err(MixError::OutOfRange)
            }
        },
        Some(Opcode::Compare) => if !operand_ok || !advance_ok || !addr_ok {
            Err(MixError::OutOfRange)
        } else {
            Ok(
                (
                    MixView {
                        comparison: s.a.wrapping_sub(s.memory[w as int]),
                        location: s.location + 2,
                        ..s
                    },
                    false,
                ),
            )
        },
    }
}

/// The machine and report that `fuel` attempted steps from `s` end in:
/// `Ok(true)` once a step halts, the failing step's error once one fails --
/// the machine then rests where that step found it -- and `Ok(false)` when
/// the budget runs out first.
pub open spec fn run_spec(s: MixView, fuel: nat) -> (MixView, Result<bool, MixError>)
    decreases fuel,
{
    if fuel == 0 {
        (s, Ok(false))
    } else {
        match step_spec(s) {
            Err(e) => (s, Err(e)),
            Ok((s2, true)) => (s2, Ok(true)),
            Ok((s2, false)) => run_spec(s2, (fuel - 1) as nat),
        }
    }
}

impl Mix {
    /// The step of a halt instruction: the program counter moves one word
    /// past the opcode and the loop is told to stop.
    fn step_halt(&mut self) -> (r: Result<bool, MixError>)
        requires
            old(self).wf(),
            spec_decode(old(self)@.memory[old(self)@.location]) == Some(Opcode::Halt),
        ensures
            final(self).wf(),
            (step_spec(old(self)@) matches Ok(step) ==> r == Ok::<bool, MixError>(step.1)
                && final(self)@ == step.0),
            (step_spec(old(self)@) matches Err(e) ==> r == Err::<bool, MixError>(e)
                && final(self)@ == old(self)@),
    {
        let pc = self.get_location();
        if pc + 1 >= MEMORY_SIZE {
            return Err(MixError::OutOfRange);
        }
        match self.set_location((pc + 1) as i32) {
            Ok(u) => u,
            Err(e) => { return Err(e) },
        }
        Ok(true)
    }

    /// The step of an unconditional jump: the program counter moves to the
    /// operand address.
    fn step_jump(&mut self) -> (r: Result<bool, MixError>)
        requires
            old(self).wf(),
            spec_decode(old(self)@.memory[old(self)@.location]) == Some(Opcode::Jump),
        ensures
            final(self).wf(),
            (step_spec(old(self)@) matches Ok(step) ==> r == Ok::<bool, MixError>(step.1)
                && final(self)@ == step.0),
            (step_spec(old(self)@) matches Err(e) ==> r == Err::<bool, MixError>(e)
                && final(self)@ == old(self)@),
    {
        let pc = self.get_location();
        let w = match self.read_memory(pc + 1) {
            Ok(v) => v,
            Err(e) => { return Err(e) },
        };
        if w < 0 {
            return Err(MixError::OutOfRange);
        }
        match self.jmp(w as usize) {
            Ok(u) => u,
            Err(e) => { return Err(e) },
        }
        Ok(false)
    }

    /// The step of JUMP-ZERO: the program counter moves to the operand
    /// address exactly when the accumulator is zero, and otherwise two words
    /// forward.
    fn step_jump_zero(&mut self) -> (r: Result<bool, MixError>)
        requires
            old(self).wf(),
            spec_decode(old(self)@.memory[old(self)@.location]) == Some(Opcode::JumpZero),
        ensures
            final(self).wf(),
            (step_spec(old(self)@) matches Ok(step) ==> r == Ok::<bool, MixError>(step.1)
                && final(self)@ == step.0),
            (step_spec(old(self)@) matches Err(e) ==> r == Err::<bool, MixError>(e)
                && final(self)@ == old(self)@),
    {
        let pc = self.get_location();
        let w = match self.read_memory(pc + 1) {
            Ok(v) => v,
            Err(e) => { return Err(e) },
        };
        if self.read_a() == 0 {
            if w < 0 {
                return Err(MixError::OutOfRange);
            }
            match self.jz(w as usize) {
                Ok(u) => u,
                Err(e) => { return Err(e) },
            }
            Ok(false)
        } else {
            if pc + 2 >= MEMORY_SIZE {
                return Err(MixError::OutOfRange);
            }
            match self.set_location((pc + 2) as i32) {
                Ok(u) => u,
                Err(e) => { return Err(e) },
            }
            Ok(false)
        }
    }

    /// The step of JUMP-NEG: the program counter moves to the operand
    /// address exactly when the accumulator is negative, and otherwise two
    /// words forward.
    fn step_jump_neg(&mut self) -> (r: Result<bool, MixError>)
        requires
            old(self).wf(),
            spec_decode(old(self)@.memory[old(self)@.location]) == Some(Opcode::JumpNeg),
        ensures
            final(self).wf(),
            (step_spec(old(self)@) matches Ok(step) ==> r == Ok::<bool, MixError>(step.1)
                && final(self)@ == step.0),
            (step_spec(old(self)@) matches Err(e) ==> r == Err::<bool, MixError>(e)
                && final(self)@ == old(self)@),
    {
        let pc = self.get_location();
        let w = match self.read_memory(pc + 1) {
            Ok(v) => v,
            Err(e) => { return Err(e) },
        };
        if self.read_a() < 0 {
            if w < 0 {
                return Err(MixError::OutOfRange);
            }
            match self.jl(w as usize) {
                Ok(u) => u,
                Err(e) => { return Err(e) },
            }
            Ok(false)
        } else {
            if pc + 2 >= MEMORY_SIZE {
                return Err(MixError::OutOfRange);
            }
            match self.set_location((pc + 2) as i32) {
                Ok(u) => u,
                Err(e) => { return Err(e) },
            }
            Ok(false)
        }
    }

    /// The step of an instruction that reads or writes memory at the operand
    /// address -- load, store, arithmetic or compare -- and then advances
    /// the program counter two words, past the opcode and its operand.
    fn step_memory_op(&mut self, op: Opcode) -> (r: Result<bool, MixError>)
        requires
            old(self).wf(),
            spec_decode(old(self)@.memory[old(self)@.location]) == Some(op),
            (op is LoadA || op is StoreA || op is Add || op is Sub || op is Div
                || op is Compare),
        ensures
            final(self).wf(),
            (step_spec(old(self)@) matches Ok(step) ==> r == Ok::<bool, MixError>(step.1)
                && final(self)@ == step.0),
            (step_spec(old(self)@) matches Err(e) ==> r == Err::<bool, MixError>(e)
                && final(self)@ == old(self)@),
    {
        let pc = self.get_location();
        let w = match self.read_memory(pc + 1) {
            Ok(v) => v,
            Err(e) => { return Err(e) },
        };
        if pc + 2 >= MEMORY_SIZE || w < 0 {
            return Err(MixError::OutOfRange);
        }
        let applied = match op {
            Opcode::LoadA => self.lda(w as usize),
            Opcode::StoreA => self.sta(w as usize),
            Opcode::Add => self.add(w as usize),
            Opcode::Sub => self.sub(w as usize),
            Opcode::Div => self.div(w as usize),
            Opcode::Compare => self.cmp(w as usize),
            // unreachable: the requires admits only the six opcodes above
            _ => Err(MixError::UnknownOpcode),
        };
        match applied {
            Ok(u) => u,
            Err(e) => { return Err(e) },
        }
        match self.set_location((pc + 2) as i32) {
            Ok(u) => u,
            Err(e) => { return Err(e) },
        }
        Ok(false)
    }

    /// One step of the execution loop: performs exactly the transition that
    /// `step_spec` states for the machine's current state, and reports
    /// whether a halt instruction was executed. A failing step reports its
    /// error and leaves the machine unchanged.
    pub fn execute(&mut self) -> (r: Result<bool, MixError>)
        requires
            old(self).wf(),
        ensures
            final(self).wf(),
            (step_spec(old(self)@) matches Ok(step) ==> r == Ok::<bool, MixError>(step.1)
                && final(self)@ == step.0),
            (step_spec(old(self)@) matches Err(e) ==> r == Err::<bool, MixError>(e)
                && final(self)@ == old(self)@),
    {
        let pc = self.get_location();
        let word = match self.read_memory(pc) {
            Ok(wd) => wd,
            Err(e) => { return Err(e) },
        };
        let op = match decode(word) {
            Some(op) => op,
            None => { return Err(MixError::UnknownOpcode) },
        };
        match op {
            Opcode::Halt => self.step_halt(),
            Opcode::Jump => self.step_jump(),
            Opcode::JumpZero => self.step_jump_zero(),
            Opcode::JumpNeg => self.step_jump_neg(),
            _ => self.step_memory_op(op),
        }
    }

    /// Runs the execution loop: steps the machine until a halt instruction
    /// reports `Ok(true)`, the first error is propagated with the machine
    /// resting where the failing step found it, or `max_steps` steps have
    /// been taken and `Ok(false)` reports the budget spent. The machine
    /// keeps no internal timer; a caller wanting a longer run passes a
    /// larger budget and calls again.
    pub fn run(&mut self, max_steps: usize) -> (r: Result<bool, MixError>)
        requires
            old(self).wf(),
        ensures
            final(self).wf(),
            (final(self)@, r) == run_spec(old(self)@, max_steps as nat),
    {
        let mut steps_left: usize = max_steps;
        loop
            invariant
                self.wf(),
                run_spec(old(self)@, max_steps as nat) == run_spec(self@, steps_left as nat),
            decreases steps_left,
        {
            if steps_left == 0 {
                return Ok(false);
            }
            let halted = match self.execute() {
                Ok(h) => h,
                Err(e) => { return Err(e) },
            };
            if halted {
                return Ok(true);
            }
            steps_left = steps_left - 1;
        }
    }
}

} // verus!
