//! The fixed-shape records of a QPY stream: which bytes each section is made
//! of, field by field. All multi-byte fields are big-endian.

use crate::big_endian::{be_value, i32_be, i64_be, u16_be, u32_be, u64_be};
use crate::qiskit_circuit::{CircuitView, InstructionView};
use vstd::prelude::*;

verus! {

/// Format version written into the file header.
pub const QPY_VERSION: u8 = 14;

/// Version of the producing toolchain: major, minor, patch.
pub const TOOLCHAIN_MAJOR: u8 = 2;

pub const TOOLCHAIN_MINOR: u8 = 1;

pub const TOOLCHAIN_PATCH: u8 = 0;

/// Marker of the symbolic encoding in the file header: the letter `p`.
pub const SYMBOLIC_ENCODING: u8 = 0x70;

/// Program-type marker of a circuit: the letter `q`.
pub const PROGRAM_CIRCUIT: u8 = 0x71;

/// Type marker of a floating-point value: the letter `f`.
pub const TYPE_FLOAT: u8 = 0x66;

/// Kind of a classical register: the letter `c`.
pub const REGISTER_CLASSICAL: u8 = 0x63;

/// Kind of a qubit argument: the letter `q`.
pub const ARG_QUBIT: u8 = 0x71;

/// Kind of a classical-bit argument: the letter `c`.
pub const ARG_CLBIT: u8 = 0x63;

/// What a size field of the layout record holds when the layout is absent.
pub const SIZE_NOT_PRESENT: i32 = -1;

/// The bytes of a text made of ASCII characters, one byte per character.
pub open spec fn ascii_bytes(text: Seq<char>) -> Seq<u8> {
    text.map_values(|c: char| c as u8)
}

/// File header: the magic literal, the format version, the three toolchain
/// version bytes, the number of circuits (always one) and the marker of the
/// symbolic encoding.
pub open spec fn file_header() -> Seq<u8> {
    let magic = ascii_bytes("QISKIT"@);
    let versions = seq![QPY_VERSION, TOOLCHAIN_MAJOR, TOOLCHAIN_MINOR, TOOLCHAIN_PATCH];
    let num_circuits = u32_be(1);
    let symbolic_encoding = seq![SYMBOLIC_ENCODING];
    magic + versions + num_circuits + symbolic_encoding
}

/// Program-type marker: the stream holds a circuit.
pub open spec fn program_type() -> Seq<u8> {
    seq![PROGRAM_CIRCUIT]
}

/// One 8-byte signed index per bit of a register, ascending from zero.
pub open spec fn bit_indices(count: u32) -> Seq<u8> {
    Seq::new(count as nat, |i: int| i as i64).flat_map(|index: i64| i64_be(index))
}

/// The single classical register, named `meas`, that spans every classical
/// bit of the circuit.
pub open spec fn register_descriptor(num_clbits: u32) -> Seq<u8> {
    let kind_and_standalone = seq![REGISTER_CLASSICAL, 1u8];
    let size = u32_be(num_clbits);
    let name_size = u16_be(4);
    let in_circuit = seq![1u8];
    let name = ascii_bytes("meas"@);
    kind_and_standalone + size + name_size + in_circuit + name + bit_indices(num_clbits)
}

/// Circuit header: the fixed fields, then the (empty) name, the global phase
/// (the real number zero), the metadata (the empty JSON object) and the
/// register.
pub open spec fn circuit_header(num_qubits: u32, num_clbits: u32, num_instructions: u64) -> Seq<
    u8,
> {
    let name_size = u16_be(0);
    let global_phase_type = seq![TYPE_FLOAT];
    let global_phase_size = u16_be(8);
    let metadata_size = u64_be(2);
    let num_registers = u32_be(1);
    let num_vars = u32_be(0);
    let global_phase = u64_be(0);
    let metadata = ascii_bytes("{}"@);
    name_size + global_phase_type + global_phase_size + u32_be(num_qubits) + u32_be(num_clbits)
        + metadata_size + num_registers + u64_be(num_instructions) + num_vars + global_phase
        + metadata + register_descriptor(num_clbits)
}

/// Table of custom instructions: a count of zero and no entry.
pub open spec fn custom_instructions() -> Seq<u8> {
    u64_be(0)
}

/// The canonical class name of a gate of the supported instruction set,
/// `None` for any other mnemonic.
pub open spec fn gate_class_name(mnemonic: Seq<char>) -> Option<Seq<char>> {
    if mnemonic == "x"@ {
        Some("XGate"@)
    } else if mnemonic == "sx"@ {
        Some("SXGate"@)
    } else if mnemonic == "cz"@ {
        Some("CZGate"@)
    } else if mnemonic == "measure"@ {
        Some("Measure"@)
    } else if mnemonic == "reset"@ {
        Some("Reset"@)
    } else if mnemonic == "ecr"@ {
        Some("ECRGate"@)
    } else if mnemonic == "cx"@ {
        Some("CXGate"@)
    } else if mnemonic == "rz"@ {
        Some("RZGate"@)
    } else if mnemonic == "id"@ {
        Some("IGate"@)
    } else {
        None
    }
}

/// How many control qubits a gate is written with: one for `cx` and `cz`,
/// none for the others.
pub open spec fn num_ctrl_qubits(mnemonic: Seq<char>) -> u32 {
    if mnemonic == "cx"@ || mnemonic == "cz"@ {
        1
    } else {
        0
    }
}

/// Argument entry: the kind of bit (`q` or `c`) and its index.
pub open spec fn argument_entry(kind: u8, index: u32) -> Seq<u8> {
    seq![kind] + u32_be(index)
}

/// The entries of a run of bits of one kind, in the given order.
pub open spec fn argument_entries(kind: u8, indices: Seq<u32>) -> Seq<u8> {
    indices.flat_map(|index: u32| argument_entry(kind, index))
}

/// Parameter entry: the marker of a floating-point value, the length of the
/// data (always 8) and the binary64 value, most significant byte first.
pub open spec fn parameter_entry(bits: u64) -> Seq<u8> {
    seq![TYPE_FLOAT] + u16_be(8) + u64_be(bits)
}

/// The entries of the parameters, in the given order.
pub open spec fn parameter_entries(params: Seq<u64>) -> Seq<u8> {
    params.flat_map(|bits: u64| parameter_entry(bits))
}

/// Whether every count of the instruction fits the field it is written to:
/// 16 bits for the parameters, 32 bits for each kind of argument.
pub open spec fn instruction_fits(inst: InstructionView) -> bool {
    &&& inst.params.len() <= u16::MAX
    &&& inst.qubits.len() <= u32::MAX
    &&& inst.clbits.len() <= u32::MAX
}

/// The fixed fields of an instruction record: the lengths and counts, the
/// marker of an absent condition (key, register size and value all zero),
/// the number of control qubits and the control state, which is always 1.
pub open spec fn instruction_fields(
    name_size: u16,
    num_parameters: u16,
    num_qargs: u32,
    num_cargs: u32,
    num_ctrl_qubits: u32,
) -> Seq<u8> {
    let label_size = u16_be(0);
    let conditional_key = seq![0u8];
    let condition_register_size = u16_be(0);
    let condition_value = i64_be(0);
    let ctrl_state = u32_be(1);
    u16_be(name_size) + label_size + u16_be(num_parameters) + u32_be(num_qargs) + u32_be(
        num_cargs,
    ) + conditional_key + condition_register_size + condition_value + u32_be(num_ctrl_qubits)
        + ctrl_state
}

/// Per-instruction record of a supported gate whose counts fit: the fixed
/// fields, the class name, the qubit arguments, the classical arguments,
/// then the parameters. Label and condition are empty.
pub open spec fn instruction_record(inst: InstructionView) -> Seq<u8> {
    let class_name = gate_class_name(inst.name).unwrap();
    instruction_fields(
        class_name.len() as u16,
        inst.params.len() as u16,
        inst.qubits.len() as u32,
        inst.clbits.len() as u32,
        num_ctrl_qubits(inst.name),
    ) + ascii_bytes(class_name) + argument_entries(ARG_QUBIT, inst.qubits) + argument_entries(
        ARG_CLBIT,
        inst.clbits,
    ) + parameter_entries(inst.params)
}

/// The records of the instructions, in submission order.
pub open spec fn instruction_records(instructions: Seq<InstructionView>) -> Seq<u8> {
    instructions.flat_map(|inst: InstructionView| instruction_record(inst))
}

/// Layout record that declares the layout absent: the three sizes hold the
/// sentinel -1, and there are no extra registers and no input qubits.
pub open spec fn layout_absent() -> Seq<u8> {
    let exists = seq![0u8];
    let initial_layout_size = i32_be(SIZE_NOT_PRESENT);
    let input_mapping_size = i32_be(SIZE_NOT_PRESENT);
    let final_layout_size = i32_be(SIZE_NOT_PRESENT);
    let extra_registers = u32_be(0);
    let input_qubit_count = i32_be(0);
    exists + initial_layout_size + input_mapping_size + final_layout_size + extra_registers
        + input_qubit_count
}

/// Trailer: the length of the (empty) calibration table, then the layout.
pub open spec fn trailer() -> Seq<u8> {
    u16_be(0) + layout_absent()
}

/// The whole stream of a circuit whose instructions are all supported and
/// fit their fields.
pub open spec fn qpy_stream(circuit: CircuitView) -> Seq<u8> {
    file_header() + program_type() + circuit_header(
        circuit.num_qubits,
        circuit.num_clbits,
        circuit.instructions.len() as u64,
    ) + custom_instructions() + instruction_records(circuit.instructions) + trailer()
}

/// Where the number of circuits stands in a stream: after the magic literal
/// and the four version bytes.
pub const OFFSET_NUM_CIRCUITS: usize = 10;

/// Where the qubit count stands in a stream: after the file header, the
/// program-type marker and the first three fields of the circuit header.
pub const OFFSET_NUM_QUBITS: usize = 21;

/// Where the classical-bit count stands in a stream.
pub const OFFSET_NUM_CLBITS: usize = 25;

/// Where the register count stands in a stream.
pub const OFFSET_NUM_REGISTERS: usize = 37;

/// Where the instruction count stands in a stream.
pub const OFFSET_NUM_INSTRUCTIONS: usize = 41;

/// Where the name of the register stands in a stream.
pub const OFFSET_REGISTER_NAME: usize = 72;

/// Length of the trailer.
pub const TRAILER_SIZE: usize = 23;

/// The field of `width` bytes that a reader finds at `offset` in a stream.
pub open spec fn field_at(stream: Seq<u8>, offset: usize, width: nat) -> nat {
    be_value(stream.subrange(offset as int, offset + width))
}

/// The number of circuits that a reader finds in the header of a stream.
pub open spec fn header_num_circuits(stream: Seq<u8>) -> nat {
    field_at(stream, OFFSET_NUM_CIRCUITS, 4)
}

/// The qubit count that a reader finds in the header of a stream.
pub open spec fn header_num_qubits(stream: Seq<u8>) -> nat {
    field_at(stream, OFFSET_NUM_QUBITS, 4)
}

/// The classical-bit count that a reader finds in the header of a stream.
pub open spec fn header_num_clbits(stream: Seq<u8>) -> nat {
    field_at(stream, OFFSET_NUM_CLBITS, 4)
}

/// The register count that a reader finds in the header of a stream.
pub open spec fn header_num_registers(stream: Seq<u8>) -> nat {
    field_at(stream, OFFSET_NUM_REGISTERS, 4)
}

/// The instruction count that a reader finds in the header of a stream.
pub open spec fn header_num_instructions(stream: Seq<u8>) -> nat {
    field_at(stream, OFFSET_NUM_INSTRUCTIONS, 8)
}

} // verus!
