//! The read-only view of a quantum circuit that the encoder consumes: qubit
//! and classical-bit counts and the instructions in submission order.

use vstd::prelude::*;

verus! {

/// One operation of a circuit.
///
/// `params` holds each real-valued parameter as its IEEE-754 binary64 bit
/// pattern (what `f64::to_bits` returns), so that the value can be carried
/// and written out bit for bit.
#[derive(Debug, Clone, PartialEq, Eq)]
pub struct CircuitInstruction {
    pub name: String,
    pub qubits: Vec<u32>,
    pub clbits: Vec<u32>,
    pub params: Vec<u64>,
}

/// The mathematical content of a [`CircuitInstruction`].
pub struct InstructionView {
    pub name: Seq<char>,
    pub qubits: Seq<u32>,
    pub clbits: Seq<u32>,
    pub params: Seq<u64>,
}

impl View for CircuitInstruction {
    type V = InstructionView;

    open spec fn view(&self) -> InstructionView {
        InstructionView {
            name: self.name@,
            qubits: self.qubits@,
            clbits: self.clbits@,
            params: self.params@,
        }
    }
}

/// The mathematical content of a [`Circuit`].
pub struct CircuitView {
    pub num_qubits: u32,
    pub num_clbits: u32,
    pub instructions: Seq<InstructionView>,
}

/// A circuit: its two bit counts and its instructions in submission order.
#[derive(Debug, Clone, PartialEq, Eq)]
pub struct Circuit {
    num_qubits: u32,
    num_clbits: u32,
    instructions: Vec<CircuitInstruction>,
}

impl View for Circuit {
    type V = CircuitView;

    closed spec fn view(&self) -> CircuitView {
        CircuitView {
            num_qubits: self.num_qubits,
            num_clbits: self.num_clbits,
            instructions: self.instructions@.map_values(|inst: CircuitInstruction| inst@),
        }
    }
}

impl Circuit {
    /// A circuit over `num_qubits` qubits and `num_clbits` classical bits
    /// that applies `instructions` in the given order.
    pub fn new(num_qubits: u32, num_clbits: u32, instructions: Vec<CircuitInstruction>) -> (circuit:
        Circuit)
        ensures
            circuit@.num_qubits == num_qubits,
            circuit@.num_clbits == num_clbits,
            circuit@.instructions == instructions@.map_values(|inst: CircuitInstruction| inst@),
    {
        Circuit { num_qubits, num_clbits, instructions }
    }

    pub fn num_qubits(&self) -> (count: u32)
        ensures
            count == self@.num_qubits,
    {
        self.num_qubits
    }

    pub fn num_clbits(&self) -> (count: u32)
        ensures
            count == self@.num_clbits,
    {
        self.num_clbits
    }

    pub fn num_instructions(&self) -> (count: usize)
        ensures
            count == self@.instructions.len(),
    {
        self.instructions.len()
    }

    /// A cursor over the instructions, placed before the first one. Each call
    /// starts again from the beginning.
    pub fn get_circuit_instructions(&self) -> (cursor: CircuitInstructions<'_>)
        ensures
            cursor.remaining() == self@.instructions,
    {
        proof {
            assert(self@.instructions.skip(0) =~= self@.instructions);
        }
        CircuitInstructions { circuit: self, index: 0 }
    }
}

/// A forward-only cursor over the instructions of a circuit.
pub struct CircuitInstructions<'a> {
    circuit: &'a Circuit,
    index: usize,
}

impl<'a> CircuitInstructions<'a> {
    #[verifier::type_invariant]
    spec fn in_bounds(&self) -> bool {
        self.index <= self.circuit.instructions.len()
    }

    /// The instructions that the cursor has yet to hand out, next one first.
    pub closed spec fn remaining(&self) -> Seq<InstructionView> {
        self.circuit@.instructions.skip(self.index as int)
    }

    /// How many instructions are left.
    pub fn len(&self) -> (count: usize)
        ensures
            count == self.remaining().len(),
    {
        proof {
            use_type_invariant(self);
        }
        self.circuit.instructions.len() - self.index
    }

    /// Hands out the next instruction and moves past it; `None` at the end.
    pub fn next(&mut self) -> (item: Option<&'a CircuitInstruction>)
        ensures
            match item {
                Some(inst) => old(self).remaining().len() > 0 && inst@ == old(self).remaining()[0]
                    && final(self).remaining() == old(self).remaining().drop_first(),
                None => old(self).remaining().len() == 0 && final(self).remaining() == old(
                    self,
                ).remaining(),
            },
    {
        proof {
            use_type_invariant(&*self);
        }
        if self.index >= self.circuit.instructions.len() {
            return None;
        }
        let inst = &self.circuit.instructions[self.index];
        proof {
            let all = self.circuit@.instructions;
            assert(all.skip(self.index as int).drop_first() =~= all.skip(self.index + 1));
        }
        self.index += 1;
        Some(inst)
    }
}

} // verus!
