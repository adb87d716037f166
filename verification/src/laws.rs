//! Laws of the machine, stated over the mathematical model and proved once
//! for all inputs: the round trip of memory writes, the conditional jumps'
//! exact redirection condition, the rejection of unknown opcodes, the
//! preservation of well-formedness, and the indifference of a halting or
//! failing run to any larger step budget.

use vstd::prelude::*;

use crate::execution::{run_spec, step_spec};
use crate::instructions::{spec_decode, Opcode};
use crate::machine::{inv, MixError, MixView, MEMORY_SIZE};

verus! {

/// Writing a value at a valid address and then reading that address yields
/// exactly the value written: `set_memory` ensures the updated model on the
/// left, and `read_memory` returns that model's word at the address.
pub proof fn lemma_write_read_round_trip(s: MixView, address: int, value: i32)
    requires
        inv(s),
        0 <= address < MEMORY_SIZE,
    ensures
        (MixView { memory: s.memory.update(address, value), ..s }).memory[address] == value,
        inv((MixView { memory: s.memory.update(address, value), ..s })),
{
}

/// A JUMP-ZERO step whose operand names a valid address redirects the
/// program counter to that address exactly when the accumulator is zero;
/// otherwise it advances the counter one instruction, past the opcode and
/// its operand word.
pub proof fn lemma_jump_zero_step(s: MixView)
    requires
        inv(s),
        spec_decode(s.memory[s.location]) == Some(Opcode::JumpZero),
        s.location + 2 < MEMORY_SIZE,
        0 <= s.memory[s.location + 1] < MEMORY_SIZE,
    ensures
        s.a == 0 ==> step_spec(s) == Ok::<(MixView, bool), MixError>(
            ((MixView { location: s.memory[s.location + 1] as int, ..s }), false),
        ),
        s.a != 0 ==> step_spec(s) == Ok::<(MixView, bool), MixError>(
            ((MixView { location: s.location + 2, ..s }), false),
        ),
{
}

/// A JUMP-NEG step whose operand names a valid address redirects the
/// program counter to that address exactly when the accumulator is
/// negative; otherwise it advances the counter one instruction, past the
/// opcode and its operand word.
pub proof fn lemma_jump_neg_step(s: MixView)
    requires
        inv(s),
        spec_decode(s.memory[s.location]) == Some(Opcode::JumpNeg),
        s.location + 2 < MEMORY_SIZE,
        0 <= s.memory[s.location + 1] < MEMORY_SIZE,
    ensures
        s.a < 0 ==> step_spec(s) == Ok::<(MixView, bool), MixError>(
            ((MixView { location: s.memory[s.location + 1] as int, ..s }), false),
        ),
        s.a >= 0 ==> step_spec(s) == Ok::<(MixView, bool), MixError>(
            ((MixView { location: s.location + 2, ..s }), false),
        ),
{
}

/// A word that names no instruction always fails the step with
/// `UnknownOpcode`; the step offers no successor state, so `execute`'s
/// contract leaves the machine exactly as it was.
pub proof fn lemma_unknown_opcode_step(s: MixView)
    requires
        inv(s),
        spec_decode(s.memory[s.location]) is None,
    ensures
        step_spec(s) == Err::<(MixView, bool), MixError>(MixError::UnknownOpcode),
{
}

/// A successful step of a well-formed machine yields a well-formed machine:
/// memory and index registers keep their sizes and the program counter
/// stays within memory.
pub proof fn lemma_step_preserves_inv(s: MixView)
    requires
        inv(s),
        step_spec(s) is Ok,
    ensures
        inv(step_spec(s)->Ok_0.0),
{
}

/// The step budget of `run` is no internal timer: a run that halts or fails
/// within some budget ends in the same machine and report under every
/// larger budget. Only the out-of-budget report `Ok(false)` depends on the
/// budget chosen.
pub proof fn lemma_run_budget_monotonic(s: MixView, fuel: nat, more: nat)
    requires
        fuel <= more,
        run_spec(s, fuel).1 != Ok::<bool, MixError>(false),
    ensures
        run_spec(s, more) == run_spec(s, fuel),
    decreases fuel,
{
    if fuel == 0 {
        assert(run_spec(s, 0).1 == Ok::<bool, MixError>(false));
    } else {
        match step_spec(s) {
            Err(_e) => {},
            Ok((s2, true)) => {},
            Ok((s2, false)) => {
                lemma_run_budget_monotonic(s2, (fuel - 1) as nat, (more - 1) as nat);
            },
        }
    }
}

} // verus!
