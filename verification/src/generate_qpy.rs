//! The QPY writer: turns a circuit into the byte stream that the record
//! layouts describe, or says why it cannot.

use crate::big_endian::{
    field_capacity, i64_be, lemma_be_bytes_len, lemma_be_round_trip, lemma_fields_after,
    push_i32, push_i64, push_u16, push_u32, push_u64, push_u8, u32_be, u64_be,
};
use crate::qiskit_circuit::{Circuit, CircuitInstruction, CircuitView, InstructionView};
use crate::qpy_formats::{
    argument_entries, argument_entry, ascii_bytes, bit_indices, circuit_header, custom_instructions,
    file_header, gate_class_name, header_num_circuits, header_num_clbits, header_num_instructions,
    header_num_qubits, header_num_registers, instruction_fields, instruction_fits,
    instruction_record, num_ctrl_qubits, parameter_entries, parameter_entry, program_type,
    qpy_stream, register_descriptor, trailer, ARG_CLBIT, ARG_QUBIT, OFFSET_REGISTER_NAME,
    PROGRAM_CIRCUIT, QPY_VERSION, REGISTER_CLASSICAL, SIZE_NOT_PRESENT, SYMBOLIC_ENCODING,
    TOOLCHAIN_MAJOR, TOOLCHAIN_MINOR, TOOLCHAIN_PATCH, TRAILER_SIZE, TYPE_FLOAT,
};
use crate::text::{push_ascii, same_text};
use vstd::prelude::*;
use vstd::utf8::{is_ascii_chars, is_ascii_chars_encode_utf8};

verus! {

/// Why a circuit cannot be encoded.
#[derive(Debug, Clone, Copy, PartialEq, Eq, Structural)]
pub enum QpyError {
    /// An instruction lies outside the supported instruction set architecture.
    UnsupportedInstruction,
    /// A count of the circuit is too large for the field it is written to.
    CountOverflow,
}

impl QpyError {
    /// What the error says in words.
    pub open spec fn text(self) -> Seq<char> {
        match self {
            QpyError::UnsupportedInstruction =>
                "instruction outside supported instruction set architecture"@,
            QpyError::CountOverflow => "circuit dimension exceeds the width of its field"@,
        }
    }

    /// What the error says in words.
    pub fn message(&self) -> (message: &'static str)
        ensures
            message@ == self.text(),
    {
        match self {
            QpyError::UnsupportedInstruction => {
                "instruction outside supported instruction set architecture"
            },
            QpyError::CountOverflow => "circuit dimension exceeds the width of its field",
        }
    }
}

/// The canonical class name of a gate of the supported instruction set.
pub fn gate_class(mnemonic: &str) -> (class: Option<&'static str>)
    ensures
        match class {
            Some(name) => gate_class_name(mnemonic@) == Some(name@) && is_ascii_chars(name@)
                && name@.len() <= 7,
            None => gate_class_name(mnemonic@) is None,
        },
{
    proof {
        reveal_strlit("XGate");
        reveal_strlit("SXGate");
        reveal_strlit("CZGate");
        reveal_strlit("Measure");
        reveal_strlit("Reset");
        reveal_strlit("ECRGate");
        reveal_strlit("CXGate");
        reveal_strlit("RZGate");
        reveal_strlit("IGate");
    }
    if same_text(mnemonic, "x") {
        Some("XGate")
    } else if same_text(mnemonic, "sx") {
        Some("SXGate")
    } else if same_text(mnemonic, "cz") {
        Some("CZGate")
    } else if same_text(mnemonic, "measure") {
        Some("Measure")
    } else if same_text(mnemonic, "reset") {
        Some("Reset")
    } else if same_text(mnemonic, "ecr") {
        Some("ECRGate")
    } else if same_text(mnemonic, "cx") {
        Some("CXGate")
    } else if same_text(mnemonic, "rz") {
        Some("RZGate")
    } else if same_text(mnemonic, "id") {
        Some("IGate")
    } else {
        None
    }
}

/// How many control qubits a gate is written with.
pub fn control_qubits(mnemonic: &str) -> (count: u32)
    ensures
        count == num_ctrl_qubits(mnemonic@),
{
    if same_text(mnemonic, "cx") || same_text(mnemonic, "cz") {
        1
    } else {
        0
    }
}

/// Appends the argument entries of a run of bits of one kind.
fn write_arguments(out: &mut Vec<u8>, kind: u8, indices: &Vec<u32>)
    ensures
        final(out)@ == old(out)@ + argument_entries(kind, indices@),
{
    let ghost entry = |index: u32| argument_entry(kind, index);
    let mut i: usize = 0;
    while i < indices.len()
        invariant
            i <= indices.len(),
            entry == |index: u32| argument_entry(kind, index),
            out@ == old(out)@ + indices@.take(i as int).flat_map(entry),
        decreases indices.len() - i,
    {
        push_u8(out, kind);
        push_u32(out, indices[i]);
        proof {
            indices@.lemma_flat_map_take_append(entry, i as int);
            assert(out@ =~= old(out)@ + indices@.take(i + 1).flat_map(entry));
        }
        i += 1;
    }
    proof {
        assert(indices@.take(i as int) =~= indices@);
    }
}

/// Appends the parameter entries.
fn write_parameters(out: &mut Vec<u8>, params: &Vec<u64>)
    ensures
        final(out)@ == old(out)@ + parameter_entries(params@),
{
    let ghost entry = |bits: u64| parameter_entry(bits);
    let mut i: usize = 0;
    while i < params.len()
        invariant
            i <= params.len(),
            entry == |bits: u64| parameter_entry(bits),
            out@ == old(out)@ + params@.take(i as int).flat_map(entry),
        decreases params.len() - i,
    {
        push_u8(out, TYPE_FLOAT);
        push_u16(out, 8);
        push_u64(out, params[i]);
        proof {
            params@.lemma_flat_map_take_append(entry, i as int);
            assert(out@ =~= old(out)@ + params@.take(i + 1).flat_map(entry));
        }
        i += 1;
    }
    proof {
        assert(params@.take(i as int) =~= params@);
    }
}

/// Why an instruction is rejected, `None` if it can be encoded. Its
/// mnemonic is looked up before its counts are checked.
pub open spec fn instruction_error(inst: InstructionView) -> Option<QpyError> {
    if gate_class_name(inst.name) is None {
        Some(QpyError::UnsupportedInstruction)
    } else if !instruction_fits(inst) {
        Some(QpyError::CountOverflow)
    } else {
        None
    }
}

/// Appends the fixed fields of an instruction record.
fn write_instruction_fields(
    out: &mut Vec<u8>,
    name_size: u16,
    num_parameters: u16,
    num_qargs: u32,
    num_cargs: u32,
    num_ctrl_qubits: u32,
)
    ensures
        final(out)@ == old(out)@ + instruction_fields(
            name_size,
            num_parameters,
            num_qargs,
            num_cargs,
            num_ctrl_qubits,
        ),
{
    proof {
        lemma_fields_after(out@);
    }
    push_u16(out, name_size);
    push_u16(out, 0);
    push_u16(out, num_parameters);
    push_u32(out, num_qargs);
    push_u32(out, num_cargs);
    push_u8(out, 0);
    push_u16(out, 0);
    push_i64(out, 0);
    push_u32(out, num_ctrl_qubits);
    push_u32(out, 1);
}

/// Instruction encoder: appends the record of one instruction to `out`, or
/// rejects the instruction and leaves `out` as it was.
pub fn write_instruction(out: &mut Vec<u8>, inst: &CircuitInstruction) -> (result: Result<
    (),
    QpyError,
>)
    ensures
        match result {
            Ok(()) => instruction_error(inst@) is None && final(out)@ == old(out)@
                + instruction_record(inst@),
            Err(error) => instruction_error(inst@) == Some(error) && final(out)@ == old(out)@,
        },
{
    let class_name = match gate_class(inst.name.as_str()) {
        Some(class_name) => class_name,
        None => {
            return Err(QpyError::UnsupportedInstruction);
        },
    };
    if inst.params.len() > u16::MAX as usize || inst.qubits.len() > u32::MAX as usize
        || inst.clbits.len() > u32::MAX as usize {
        return Err(QpyError::CountOverflow);
    }
    proof {
        is_ascii_chars_encode_utf8(class_name@);
        lemma_fields_after(out@);
    }
    write_instruction_fields(
        out,
        class_name.len() as u16,
        inst.params.len() as u16,
        inst.qubits.len() as u32,
        inst.clbits.len() as u32,
        control_qubits(inst.name.as_str()),
    );
    push_ascii(out, class_name);
    write_arguments(out, ARG_QUBIT, &inst.qubits);
    write_arguments(out, ARG_CLBIT, &inst.clbits);
    write_parameters(out, &inst.params);
    Ok(())
}

/// The error of the first instruction that is rejected, `None` if every
/// instruction can be encoded.
pub open spec fn first_error(instructions: Seq<InstructionView>) -> Option<QpyError>
    decreases instructions.len(),
{
    if instructions.len() == 0 {
        None
    } else {
        match first_error(instructions.drop_last()) {
            Some(error) => Some(error),
            None => instruction_error(instructions.last()),
        }
    }
}

/// What encoding a circuit gives: the stream, or the error of the first
/// instruction that is rejected.
pub open spec fn encoding(circuit: CircuitView) -> Result<Seq<u8>, QpyError> {
    match first_error(circuit.instructions) {
        Some(error) => Err(error),
        None => Ok(qpy_stream(circuit)),
    }
}

/// Whether `result` is what encoding `circuit` gives.
pub open spec fn is_encoding_of(result: Result<Vec<u8>, QpyError>, circuit: CircuitView) -> bool {
    match result {
        Ok(bytes) => encoding(circuit) == Ok::<Seq<u8>, QpyError>(bytes@),
        Err(error) => encoding(circuit) == Err::<Seq<u8>, QpyError>(error),
    }
}

/// An error among the first instructions of a circuit is the circuit's error.
proof fn lemma_first_error_of_prefix(instructions: Seq<InstructionView>, count: int)
    requires
        0 <= count <= instructions.len(),
        first_error(instructions.take(count)) is Some,
    ensures
        first_error(instructions) == first_error(instructions.take(count)),
    decreases instructions.len(),
{
    if count == instructions.len() {
        assert(instructions.take(count) =~= instructions);
    } else {
        assert(instructions.drop_last().take(count) =~= instructions.take(count));
        lemma_first_error_of_prefix(instructions.drop_last(), count);
    }
}

/// Appends the file header and the program-type marker.
pub fn write_file_header(out: &mut Vec<u8>)
    ensures
        final(out)@ == old(out)@ + file_header() + program_type(),
{
    proof {
        reveal_strlit("QISKIT");
        lemma_fields_after(out@);
    }
    push_ascii(out, "QISKIT");
    push_u8(out, QPY_VERSION);
    push_u8(out, TOOLCHAIN_MAJOR);
    push_u8(out, TOOLCHAIN_MINOR);
    push_u8(out, TOOLCHAIN_PATCH);
    proof {
        let versions = seq![QPY_VERSION, TOOLCHAIN_MAJOR, TOOLCHAIN_MINOR, TOOLCHAIN_PATCH];
        assert(out@ =~= old(out)@ + ascii_bytes("QISKIT"@) + versions);
    }
    push_u32(out, 1);
    push_u8(out, SYMBOLIC_ENCODING);
    push_u8(out, PROGRAM_CIRCUIT);
}

/// Appends the ascending bit indices of a register of `count` bits.
fn write_bit_indices(out: &mut Vec<u8>, count: u32)
    ensures
        final(out)@ == old(out)@ + bit_indices(count),
{
    let ghost all = Seq::new(count as nat, |i: int| i as i64);
    let ghost field = |index: i64| i64_be(index);
    let mut i: u32 = 0;
    while i < count
        invariant
            i <= count,
            all == Seq::new(count as nat, |i: int| i as i64),
            field == |index: i64| i64_be(index),
            out@ == old(out)@ + all.take(i as int).flat_map(field),
        decreases count - i,
    {
        push_i64(out, i as i64);
        proof {
            all.lemma_flat_map_take_append(field, i as int);
            assert(out@ =~= old(out)@ + all.take(i + 1).flat_map(field));
        }
        i += 1;
    }
    proof {
        assert(all.take(i as int) =~= all);
    }
}

/// Appends the descriptor of the register `meas` over `num_clbits` bits.
pub fn write_register(out: &mut Vec<u8>, num_clbits: u32)
    ensures
        final(out)@ == old(out)@ + register_descriptor(num_clbits),
{
    proof {
        reveal_strlit("meas");
        lemma_fields_after(out@);
    }
    push_u8(out, REGISTER_CLASSICAL);
    push_u8(out, 1);
    proof {
        assert(out@ =~= old(out)@ + seq![REGISTER_CLASSICAL, 1u8]);
    }
    push_u32(out, num_clbits);
    push_u16(out, 4);
    push_u8(out, 1);
    push_ascii(out, "meas");
    write_bit_indices(out, num_clbits);
}

/// Appends the circuit header with its register, and the empty table of
/// custom instructions.
pub fn write_circuit_header(
    out: &mut Vec<u8>,
    num_qubits: u32,
    num_clbits: u32,
    num_instructions: u64,
)
    ensures
        final(out)@ == old(out)@ + circuit_header(num_qubits, num_clbits, num_instructions)
            + custom_instructions(),
{
    proof {
        reveal_strlit("{}");
        lemma_fields_after(out@);
    }
    push_u16(out, 0);
    push_u8(out, TYPE_FLOAT);
    push_u16(out, 8);
    push_u32(out, num_qubits);
    push_u32(out, num_clbits);
    push_u64(out, 2);
    push_u32(out, 1);
    push_u64(out, num_instructions);
    push_u32(out, 0);
    push_u64(out, 0);
    push_ascii(out, "{}");
    write_register(out, num_clbits);
    push_u64(out, 0);
}

/// Trailer encoder: appends the calibration placeholder and the record of an
/// absent layout.
pub fn write_trailer(out: &mut Vec<u8>)
    ensures
        final(out)@ == old(out)@ + trailer(),
{
    let ghost before = out@;
    push_u16(out, 0);
    proof {
        lemma_fields_after(out@);
    }
    push_u8(out, 0);
    push_i32(out, SIZE_NOT_PRESENT);
    push_i32(out, SIZE_NOT_PRESENT);
    push_i32(out, SIZE_NOT_PRESENT);
    push_u32(out, 0);
    push_i32(out, 0);
    proof {
        lemma_fields_after(before);
    }
}

/// Bytes of a stream that do not depend on the circuit's size.
const FIXED_SIZE: usize = 107;

/// Bytes of the fixed fields of one instruction record.
const INSTRUCTION_FIXED_SIZE: usize = 33;

/// How many bytes to reserve for a circuit of `num_instructions`
/// instructions: the fixed part of the stream and of each record. Names,
/// arguments and parameters come on top, so the buffer may still grow.
fn size_estimate(num_instructions: usize) -> (size: usize)
    ensures
        size == if FIXED_SIZE + INSTRUCTION_FIXED_SIZE * num_instructions <= isize::MAX {
            FIXED_SIZE + INSTRUCTION_FIXED_SIZE * num_instructions
        } else {
            FIXED_SIZE as int
        },
{
    if num_instructions <= (usize::MAX / 2 - FIXED_SIZE) / INSTRUCTION_FIXED_SIZE {
        FIXED_SIZE + INSTRUCTION_FIXED_SIZE * num_instructions
    } else {
        FIXED_SIZE
    }
}

/// Encodes a circuit as a QPY stream: the file header, the program-type
/// marker, the circuit header with its register, the empty table of custom
/// instructions, one record per instruction, and the trailer. The first
/// instruction that cannot be encoded ends the encoding with its error, and
/// no byte is handed out.
pub fn generate_qpy_payload(circuit: &Circuit) -> (result: Result<Vec<u8>, QpyError>)
    ensures
        is_encoding_of(result, circuit@),
{
    let num_instructions = circuit.num_instructions();
    let mut out: Vec<u8> = Vec::with_capacity(size_estimate(num_instructions));
    write_file_header(&mut out);
    write_circuit_header(
        &mut out,
        circuit.num_qubits(),
        circuit.num_clbits(),
        num_instructions as u64,
    );
    let ghost head = out@;
    let ghost all = circuit@.instructions;
    let ghost record = |inst: InstructionView| instruction_record(inst);
    let ghost mut done: int = 0;
    let mut cursor = circuit.get_circuit_instructions();
    proof {
        assert(all.skip(0) =~= all);
        assert(head =~= head + all.take(0).flat_map(record));
    }
    loop
        invariant
            0 <= done <= all.len(),
            all == circuit@.instructions,
            record == |inst: InstructionView| instruction_record(inst),
            cursor.remaining() == all.skip(done),
            first_error(all.take(done)) is None,
            out@ == head + all.take(done).flat_map(record),
        ensures
            done == all.len(),
        decreases all.len() - done,
    {
        let inst = match cursor.next() {
            Some(inst) => inst,
            None => {
                break ;
            },
        };
        proof {
            assert(all.take(done + 1).drop_last() =~= all.take(done));
            assert(all.skip(done).drop_first() =~= all.skip(done + 1));
            all.lemma_flat_map_take_append(record, done);
            lemma_fields_after(head);
        }
        match write_instruction(&mut out, inst) {
            Ok(()) => {},
            Err(error) => {
                proof {
                    lemma_first_error_of_prefix(all, done + 1);
                }
                return Err(error);
            },
        }
        proof {
            done = done + 1;
        }
    }
    proof {
        assert(all.take(done) =~= all);
        lemma_fields_after(head);
        lemma_fields_after(Seq::empty());
        assert(head =~= Seq::<u8>::empty() + head);
    }
    write_trailer(&mut out);
    Ok(out)
}

/// Writes the QPY stream of a circuit to the end of `sink`. Where the
/// circuit cannot be encoded, `sink` is left exactly as it was.
pub fn write_qpy_payload(circuit: &Circuit, sink: &mut Vec<u8>) -> (result: Result<(), QpyError>)
    ensures
        match result {
            Ok(()) => encoding(circuit@) is Ok && final(sink)@ == old(sink)@ + encoding(
                circuit@,
            )->Ok_0,
            Err(error) => encoding(circuit@) == Err::<Seq<u8>, QpyError>(error) && final(sink)@
                == old(sink)@,
        },
{
    match generate_qpy_payload(circuit) {
        Ok(mut bytes) => {
            sink.append(&mut bytes);
            Ok(())
        },
        Err(error) => Err(error),
    }
}

/// A circuit whose instructions all belong to the supported instruction set
/// and fit their fields is encoded, and a reader finds in the header of the
/// stream the circuit's own numbers of qubits, classical bits and
/// instructions.
pub proof fn lemma_header_reads_back(circuit: CircuitView)
    requires
        circuit.instructions.len() <= u64::MAX,
        forall|i: int|
            0 <= i < circuit.instructions.len() ==> gate_class_name(
                #[trigger] circuit.instructions[i].name,
            ) is Some,
        forall|i: int|
            0 <= i < circuit.instructions.len() ==> instruction_fits(
                #[trigger] circuit.instructions[i],
            ),
    ensures
        encoding(circuit) == Ok::<Seq<u8>, QpyError>(qpy_stream(circuit)),
        header_num_qubits(qpy_stream(circuit)) == circuit.num_qubits,
        header_num_clbits(qpy_stream(circuit)) == circuit.num_clbits,
        header_num_instructions(qpy_stream(circuit)) == circuit.instructions.len(),
{
    lemma_no_error(circuit.instructions);
    let stream = qpy_stream(circuit);
    let count = circuit.instructions.len() as u64;
    reveal_strlit("QISKIT");
    lemma_be_bytes_len(1, 4);
    lemma_be_bytes_len(0, 2);
    lemma_be_bytes_len(8, 2);
    lemma_be_bytes_len(circuit.num_qubits as nat, 4);
    lemma_be_bytes_len(circuit.num_clbits as nat, 4);
    lemma_be_bytes_len(2, 8);
    lemma_be_bytes_len(count as nat, 8);
    assert(stream.subrange(21, 25) =~= u32_be(circuit.num_qubits));
    assert(stream.subrange(25, 29) =~= u32_be(circuit.num_clbits));
    assert(stream.subrange(41, 49) =~= u64_be(count));
    assert(field_capacity(4) == 0x1_0000_0000 && field_capacity(8) == 0x1_0000_0000_0000_0000)
        by {
        reveal_with_fuel(field_capacity, 9);
    }
    lemma_be_round_trip(circuit.num_qubits as nat, 4);
    lemma_be_round_trip(circuit.num_clbits as nat, 4);
    lemma_be_round_trip(count as nat, 8);
}

/// Every stream has the same frame, whatever the circuit: it opens with the
/// magic literal and the format version, announces one circuit and one
/// register, names the register `meas`, and closes with the trailer of an
/// absent layout.
pub proof fn lemma_stream_frame(circuit: CircuitView)
    ensures
        qpy_stream(circuit).len() >= 107,
        qpy_stream(circuit).subrange(0, 6) == ascii_bytes("QISKIT"@),
        qpy_stream(circuit)[6] == QPY_VERSION,
        header_num_circuits(qpy_stream(circuit)) == 1,
        header_num_registers(qpy_stream(circuit)) == 1,
        qpy_stream(circuit).subrange(
            OFFSET_REGISTER_NAME as int,
            OFFSET_REGISTER_NAME + 4,
        ) == ascii_bytes("meas"@),
        qpy_stream(circuit).subrange(
            qpy_stream(circuit).len() - TRAILER_SIZE,
            qpy_stream(circuit).len() as int,
        ) == trailer(),
{
    let stream = qpy_stream(circuit);
    let count = circuit.instructions.len() as u64;
    reveal_strlit("QISKIT");
    reveal_strlit("{}");
    reveal_strlit("meas");
    lemma_be_bytes_len(1, 4);
    lemma_be_bytes_len(0, 2);
    lemma_be_bytes_len(8, 2);
    lemma_be_bytes_len(4, 2);
    lemma_be_bytes_len(0, 4);
    lemma_be_bytes_len(0, 8);
    lemma_be_bytes_len(0xffff_ffff, 4);
    lemma_be_bytes_len(circuit.num_qubits as nat, 4);
    lemma_be_bytes_len(circuit.num_clbits as nat, 4);
    lemma_be_bytes_len(2, 8);
    lemma_be_bytes_len(count as nat, 8);
    assert(trailer().len() == TRAILER_SIZE);
    assert(stream.subrange(0, 6) =~= ascii_bytes("QISKIT"@));
    assert(stream.subrange(10, 14) =~= u32_be(1));
    assert(stream.subrange(37, 41) =~= u32_be(1));
    assert(stream.subrange(72, 76) =~= ascii_bytes("meas"@));
    assert(stream.subrange(stream.len() - TRAILER_SIZE, stream.len() as int) =~= trailer());
    assert(field_capacity(4) == 0x1_0000_0000) by {
        reveal_with_fuel(field_capacity, 5);
    }
    lemma_be_round_trip(1, 4);
}

/// Instructions that can each be encoded give no error.
proof fn lemma_no_error(instructions: Seq<InstructionView>)
    requires
        forall|i: int|
            0 <= i < instructions.len() ==> instruction_error(#[trigger] instructions[i]) is None,
    ensures
        first_error(instructions) is None,
    decreases instructions.len(),
{
    if instructions.len() > 0 {
        lemma_no_error(instructions.drop_last());
    }
}

/// The error of a circuit is that of its first instruction that cannot be
/// encoded: an instruction outside the supported instruction set, with only
/// encodable instructions before it, makes the encoding fail with
/// `UnsupportedInstruction`.
pub proof fn lemma_first_rejected_decides(circuit: CircuitView, index: int)
    requires
        0 <= index < circuit.instructions.len(),
        instruction_error(circuit.instructions[index]) is Some,
        forall|i: int|
            0 <= i < index ==> instruction_error(#[trigger] circuit.instructions[i]) is None,
    ensures
        encoding(circuit) == Err::<Seq<u8>, QpyError>(
            instruction_error(circuit.instructions[index])->Some_0,
        ),
        gate_class_name(circuit.instructions[index].name) is None ==> encoding(circuit) == Err::<
            Seq<u8>,
            QpyError,
        >(QpyError::UnsupportedInstruction),
{
    let upto = circuit.instructions.take(index + 1);
    assert(upto.drop_last() =~= circuit.instructions.take(index));
    lemma_no_error(circuit.instructions.take(index));
    lemma_first_error_of_prefix(circuit.instructions, index + 1);
}

/// Encoding is deterministic: two encodings of circuits with the same
/// content end alike, with the same bytes or with the same error.
pub proof fn lemma_encoding_is_deterministic(
    first: Circuit,
    second: Circuit,
    first_result: Result<Vec<u8>, QpyError>,
    second_result: Result<Vec<u8>, QpyError>,
)
    requires
        first@ == second@,
        is_encoding_of(first_result, first@),
        is_encoding_of(second_result, second@),
    ensures
        match (first_result, second_result) {
            (Ok(a), Ok(b)) => a@ == b@,
            (Err(a), Err(b)) => a == b,
            _ => false,
        },
{
}

} // verus!
