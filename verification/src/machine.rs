//! Machine state: registers, memory, comparison flag and program counter,
//! with bounds-checked accessors and program loading.

use vstd::prelude::*;

verus! {

/// Number of addressable memory words; every address must lie in
/// `[0, MEMORY_SIZE)`.
pub const MEMORY_SIZE: usize = 4000;

/// Number of index registers; every register selector must lie in
/// `[0, INDEX_REGISTER_COUNT)`.
pub const INDEX_REGISTER_COUNT: usize = 6;

/// The closed set of error kinds an operation of the machine can report.
/// Every failure is recoverable by the caller; no operation panics.
#[derive(Clone, Copy, Debug, PartialEq, Eq, Structural)]
pub enum MixError {
    /// A memory or program-counter address outside `[0, MEMORY_SIZE)`.
    OutOfRange,
    /// An index-register selector outside `[0, INDEX_REGISTER_COUNT)`.
    IndexOutOfRange,
    /// The divisor operand of a division is zero.
    DivideByZero,
    /// A program longer than `MEMORY_SIZE` words was offered for loading.
    ProgramTooLarge,
    /// A fetched opcode matches no defined instruction.
    UnknownOpcode,
}

/// The mathematical model of a machine: every contract of this crate is
/// stated over values of this type.
#[verifier::ext_equal]
pub ghost struct MixView {
    /// Accumulator register A.
    pub a: i32,
    /// Extension register X.
    pub x: i32,
    /// The six index registers I1..I6.
    pub i: Seq<i32>,
    /// The `MEMORY_SIZE` memory words.
    pub memory: Seq<i32>,
    /// Comparison flag, the last result of the compare instruction.
    pub comparison: i32,
    /// Program counter: the address of the next word to fetch.
    pub location: int,
}

/// Well-formedness of a machine model: the memory and index-register file
/// have their fixed sizes and the program counter addresses memory.
pub open spec fn inv(s: MixView) -> bool {
    &&& s.memory.len() == MEMORY_SIZE
    &&& s.i.len() == INDEX_REGISTER_COUNT
    &&& 0 <= s.location < MEMORY_SIZE
}

/// The state of a freshly created machine: all registers and memory words
/// zero, comparison flag zero, program counter zero.
pub open spec fn init_view() -> MixView {
    MixView {
        a: 0,
        x: 0,
        i: Seq::new(INDEX_REGISTER_COUNT as nat, |_j: int| 0i32),
        memory: Seq::new(MEMORY_SIZE as nat, |_j: int| 0i32),
        comparison: 0,
        location: 0,
    }
}

/// One virtual machine: exclusively owned, mutated only through its own
/// operations, every access bounds-checked.
pub struct Mix {
    a: i32,
    x: i32,
    i: Vec<i32>,
    memory: Vec<i32>,
    comparison: i32,
    location: usize,
}

impl View for Mix {
    type V = MixView;

    closed spec fn view(&self) -> MixView {
        MixView {
            a: self.a,
            x: self.x,
            i: self.i@,
            memory: self.memory@,
            comparison: self.comparison,
            location: self.location as int,
        }
    }
}

/// A vector of `n` zero words.
fn zeroed(n: usize) -> (v: Vec<i32>)
    ensures
        v@ == Seq::new(n as nat, |_j: int| 0i32),
{
    let mut v: Vec<i32> = Vec::new();
    let mut k: usize = 0;
    while k < n
        invariant
            k <= n,
            v@.len() == k,
            forall|j: int| 0 <= j < k ==> v@[j] == 0i32,
        decreases n - k,
    {
        v.push(0);
        k = k + 1;
    }
    proof {
        assert(v@ =~= Seq::new(n as nat, |_j: int| 0i32));
    }
    v
}

impl Mix {
    /// Well-formedness of a machine; every constructor establishes it and
    /// every operation preserves it.
    pub open spec fn wf(&self) -> bool {
        inv(self@)
    }

    /// A new machine with all registers and memory zeroed.
    pub fn new() -> (m: Mix)
        ensures
            m.wf(),
            m@ == init_view(),
    {
        let m = Mix {
            a: 0,
            x: 0,
            i: zeroed(INDEX_REGISTER_COUNT),
            memory: zeroed(MEMORY_SIZE),
            comparison: 0,
            location: 0,
        };
        proof {
            assert(m@ =~= init_view());
        }
        m
    }

    /// The comparison flag.
    pub fn get_comparison(&self) -> (r: i32)
        ensures
            r == self@.comparison,
    {
        self.comparison
    }

    /// The program counter.
    pub fn get_location(&self) -> (r: usize)
        ensures
            r == self@.location,
    {
        self.location
    }

    /// Sets the comparison flag.
    pub fn set_comparison(&mut self, value: i32)
        ensures
            final(self)@ == (MixView { comparison: value, ..old(self)@ }),
    {
        self.comparison = value;
    }

    /// Moves the program counter to `address`, or reports `OutOfRange` and
    /// changes nothing when `address` lies outside `[0, MEMORY_SIZE)`.
    pub fn set_location(&mut self, address: i32) -> (r: Result<(), MixError>)
        ensures
            0 <= address < MEMORY_SIZE ==> (r == Ok::<(), MixError>(()) && final(self)@ == (
            MixView { location: address as int, ..old(self)@ })),
            !(0 <= address < MEMORY_SIZE) ==> (r == Err::<(), MixError>(MixError::OutOfRange)
                && final(self)@ == old(self)@),
    {
        if address < 0 || address >= MEMORY_SIZE as i32 {
            Err(MixError::OutOfRange)
        } else {
            self.location = address as usize;
            Ok(())
        }
    }

    /// Loads `value` into the accumulator A.
    pub fn load_a(&mut self, value: i32)
        ensures
            final(self)@ == (MixView { a: value, ..old(self)@ }),
    {
        self.a = value;
    }

    /// The accumulator A.
    pub fn read_a(&self) -> (r: i32)
        ensures
            r == self@.a,
    {
        self.a
    }

    /// Loads `value` into the extension register X.
    pub fn load_x(&mut self, value: i32)
        ensures
            final(self)@ == (MixView { x: value, ..old(self)@ }),
    {
        self.x = value;
    }

    /// The extension register X.
    pub fn read_x(&self) -> (r: i32)
        ensures
            r == self@.x,
    {
        self.x
    }

    /// Loads `value` into index register `index`, or reports
    /// `IndexOutOfRange` and changes nothing when `index` lies outside
    /// `[0, INDEX_REGISTER_COUNT)`.
    pub fn load_i(&mut self, index: usize, value: i32) -> (r: Result<(), MixError>)
        requires
            old(self).wf(),
        ensures
            final(self).wf(),
            index < INDEX_REGISTER_COUNT ==> (r == Ok::<(), MixError>(()) && final(self)@ == (
            MixView { i: old(self)@.i.update(index as int, value), ..old(self)@ })),
            index >= INDEX_REGISTER_COUNT ==> (r == Err::<(), MixError>(MixError::IndexOutOfRange)
                && final(self)@ == old(self)@),
    {
        if index >= INDEX_REGISTER_COUNT {
            Err(MixError::IndexOutOfRange)
        } else {
            self.i[index] = value;
            Ok(())
        }
    }

    /// The value of index register `index`, or `IndexOutOfRange` when
    /// `index` lies outside `[0, INDEX_REGISTER_COUNT)`.
    pub fn read_i(&self, index: usize) -> (r: Result<i32, MixError>)
        requires
            self.wf(),
        ensures
            index < INDEX_REGISTER_COUNT ==> r == Ok::<i32, MixError>(self@.i[index as int]),
            index >= INDEX_REGISTER_COUNT ==> r == Err::<i32, MixError>(MixError::IndexOutOfRange),
    {
        if index >= INDEX_REGISTER_COUNT {
            Err(MixError::IndexOutOfRange)
        } else {
            Ok(self.i[index])
        }
    }

    /// Writes `value` into the memory word at `address`, or reports
    /// `OutOfRange` and changes nothing when `address` lies outside
    /// `[0, MEMORY_SIZE)`.
    pub fn set_memory(&mut self, address: usize, value: i32) -> (r: Result<(), MixError>)
        requires
            old(self).wf(),
        ensures
            final(self).wf(),
            address < MEMORY_SIZE ==> (r == Ok::<(), MixError>(()) && final(self)@ == (MixView {
                memory: old(self)@.memory.update(address as int, value),
                ..old(self)@
            })),
            address >= MEMORY_SIZE ==> (r == Err::<(), MixError>(MixError::OutOfRange)
                && final(self)@ == old(self)@),
    {
        if address >= MEMORY_SIZE {
            Err(MixError::OutOfRange)
        } else {
            self.memory[address] = value;
            Ok(())
        }
    }

    /// The memory word at `address`, or `OutOfRange` when `address` lies
    /// outside `[0, MEMORY_SIZE)`. A pure read: the machine is not changed.
    pub fn read_memory(&self, address: usize) -> (r: Result<i32, MixError>)
        requires
            self.wf(),
        ensures
            address < MEMORY_SIZE ==> r == Ok::<i32, MixError>(self@.memory[address as int]),
            address >= MEMORY_SIZE ==> r == Err::<i32, MixError>(MixError::OutOfRange),
    {
        if address >= MEMORY_SIZE {
            Err(MixError::OutOfRange)
        } else {
            Ok(self.memory[address])
        }
    }

    /// Writes the words of `program` into memory, the word at index `j` of
    /// the program into the memory word at address `j`, and leaves every
    /// later memory word as it was. A program longer than `MEMORY_SIZE`
    /// words is rejected with `ProgramTooLarge` before anything is written.
    pub fn load_program(&mut self, program: &[i32]) -> (r: Result<(), MixError>)
        requires
            old(self).wf(),
        ensures
            final(self).wf(),
            program@.len() <= MEMORY_SIZE ==> (r == Ok::<(), MixError>(()) && final(self)@ == (
            MixView { memory: loaded_memory(old(self)@.memory, program@), ..old(self)@ })),
            program@.len() > MEMORY_SIZE ==> (r == Err::<(), MixError>(MixError::ProgramTooLarge)
                && final(self)@ == old(self)@),
    {
        if program.len() > MEMORY_SIZE {
            return Err(MixError::ProgramTooLarge);
        }
        let mut k: usize = 0;
        while k < program.len()
            invariant
                self.wf(),
                k <= program@.len() <= MEMORY_SIZE,
                self@.a == old(self)@.a,
                self@.x == old(self)@.x,
                self@.i == old(self)@.i,
                self@.comparison == old(self)@.comparison,
                self@.location == old(self)@.location,
                self@.memory.len() == MEMORY_SIZE,
                forall|j: int| 0 <= j < k ==> self@.memory[j] == program@[j],
                forall|j: int| k <= j < MEMORY_SIZE ==> self@.memory[j] == old(self)@.memory[j],
            decreases program@.len() - k,
        {
            self.memory[k] = program[k];
            k = k + 1;
        }
        proof {
            assert(self@ =~= (MixView {
                memory: loaded_memory(old(self)@.memory, program@),
                ..old(self)@
            }));
        }
        Ok(())
    }
}

/// The memory that results from writing `program` over the start of `mem`:
/// word `j` of the program replaces the word at address `j`, and every word
/// from `program.len()` on is unchanged.
pub open spec fn loaded_memory(mem: Seq<i32>, program: Seq<i32>) -> Seq<i32> {
    Seq::new(mem.len(), |j: int| if 0 <= j < program.len() {
        program[j]
    } else {
        mem[j]
    })
}

} // verus!
