use qiskit_runtime_client::generate_qpy::{
    control_qubits, gate_class, generate_qpy_payload, write_instruction, write_qpy_payload,
    write_trailer, QpyError,
};
use qiskit_runtime_client::qiskit_circuit::{Circuit, CircuitInstruction};

fn gate(name: &str, qubits: &[u32], clbits: &[u32], params: &[f64]) -> CircuitInstruction {
    CircuitInstruction {
        name: name.to_string(),
        qubits: qubits.to_vec(),
        clbits: clbits.to_vec(),
        params: params.iter().map(|p| p.to_bits()).collect(),
    }
}

fn bell_circuit() -> Circuit {
    Circuit::new(
        2,
        2,
        vec![
            gate("sx", &[0], &[], &[]),
            gate("sx", &[1], &[], &[]),
            gate("cx", &[0, 1], &[], &[]),
            gate("measure", &[0], &[0], &[]),
            gate("measure", &[1], &[1], &[]),
        ],
    )
}

/// Bytes of a stream before its first instruction record, for a circuit
/// with the given counts.
fn expected_head(num_qubits: u32, num_clbits: u32, num_instructions: u64) -> Vec<u8> {
    let mut head = Vec::new();
    head.extend_from_slice(b"QISKIT");
    head.extend_from_slice(&[14, 2, 1, 0]);
    head.extend_from_slice(&1u32.to_be_bytes());
    head.push(b'p');
    head.push(b'q');
    head.extend_from_slice(&0u16.to_be_bytes());
    head.push(b'f');
    head.extend_from_slice(&8u16.to_be_bytes());
    head.extend_from_slice(&num_qubits.to_be_bytes());
    head.extend_from_slice(&num_clbits.to_be_bytes());
    head.extend_from_slice(&2u64.to_be_bytes());
    head.extend_from_slice(&1u32.to_be_bytes());
    head.extend_from_slice(&num_instructions.to_be_bytes());
    head.extend_from_slice(&0u32.to_be_bytes());
    head.extend_from_slice(&0f64.to_be_bytes());
    head.extend_from_slice(b"{}");
    head.push(b'c');
    head.push(1);
    head.extend_from_slice(&num_clbits.to_be_bytes());
    head.extend_from_slice(&4u16.to_be_bytes());
    head.push(1);
    head.extend_from_slice(b"meas");
    for bit in 0..num_clbits {
        head.extend_from_slice(&(bit as i64).to_be_bytes());
    }
    head.extend_from_slice(&0u64.to_be_bytes());
    head
}

fn expected_trailer() -> Vec<u8> {
    let mut trailer = Vec::new();
    trailer.extend_from_slice(&0u16.to_be_bytes());
    trailer.push(0);
    trailer.extend_from_slice(&(-1i32).to_be_bytes());
    trailer.extend_from_slice(&(-1i32).to_be_bytes());
    trailer.extend_from_slice(&(-1i32).to_be_bytes());
    trailer.extend_from_slice(&0u32.to_be_bytes());
    trailer.extend_from_slice(&0i32.to_be_bytes());
    trailer
}

fn expected_record(
    class_name: &str,
    num_ctrl_qubits: u32,
    qubits: &[u32],
    clbits: &[u32],
    params: &[f64],
) -> Vec<u8> {
    let mut record = Vec::new();
    record.extend_from_slice(&(class_name.len() as u16).to_be_bytes());
    record.extend_from_slice(&0u16.to_be_bytes());
    record.extend_from_slice(&(params.len() as u16).to_be_bytes());
    record.extend_from_slice(&(qubits.len() as u32).to_be_bytes());
    record.extend_from_slice(&(clbits.len() as u32).to_be_bytes());
    record.push(0);
    record.extend_from_slice(&0u16.to_be_bytes());
    record.extend_from_slice(&0i64.to_be_bytes());
    record.extend_from_slice(&num_ctrl_qubits.to_be_bytes());
    record.extend_from_slice(&1u32.to_be_bytes());
    record.extend_from_slice(class_name.as_bytes());
    for q in qubits {
        record.push(b'q');
        record.extend_from_slice(&q.to_be_bytes());
    }
    for c in clbits {
        record.push(b'c');
        record.extend_from_slice(&c.to_be_bytes());
    }
    for p in params {
        record.push(b'f');
        record.extend_from_slice(&8u16.to_be_bytes());
        record.extend_from_slice(&p.to_be_bytes());
    }
    record
}

#[test]
fn single_rotation_stream_is_bit_exact() {
    let circuit = Circuit::new(1, 1, vec![gate("rz", &[0], &[], &[1.5707963267948966])]);
    let stream = generate_qpy_payload(&circuit).unwrap();
    let expected: Vec<u8> = vec![
        // file header
        0x51, 0x49, 0x53, 0x4b, 0x49, 0x54, 0x0e, 0x02, 0x01, 0x00, 0x00, 0x00, 0x00, 0x01, 0x70,
        // program type
        0x71,
        // circuit header
        0x00, 0x00, 0x66, 0x00, 0x08, 0x00, 0x00, 0x00, 0x01, 0x00, 0x00, 0x00, 0x01, 0x00, 0x00,
        0x00, 0x00, 0x00, 0x00, 0x00, 0x02, 0x00, 0x00, 0x00, 0x01, 0x00, 0x00, 0x00, 0x00, 0x00,
        0x00, 0x00, 0x01, 0x00, 0x00, 0x00, 0x00,
        // global phase, metadata
        0x00, 0x00, 0x00, 0x00, 0x00, 0x00, 0x00, 0x00, 0x7b, 0x7d,
        // register
        0x63, 0x01, 0x00, 0x00, 0x00, 0x01, 0x00, 0x04, 0x01, 0x6d, 0x65, 0x61, 0x73, 0x00, 0x00,
        0x00, 0x00, 0x00, 0x00, 0x00, 0x00,
        // custom instructions
        0x00, 0x00, 0x00, 0x00, 0x00, 0x00, 0x00, 0x00,
        // instruction: fixed fields
        0x00, 0x06, 0x00, 0x00, 0x00, 0x01, 0x00, 0x00, 0x00, 0x01, 0x00, 0x00, 0x00, 0x00, 0x00,
        0x00, 0x00, 0x00, 0x00, 0x00, 0x00, 0x00, 0x00, 0x00, 0x00, 0x00, 0x00, 0x00, 0x00, 0x00,
        0x00, 0x00, 0x01,
        // class name, argument, parameter
        0x52, 0x5a, 0x47, 0x61, 0x74, 0x65, 0x71, 0x00, 0x00, 0x00, 0x00, 0x66, 0x00, 0x08, 0x3f,
        0xf9, 0x21, 0xfb, 0x54, 0x44, 0x2d, 0x18,
        // trailer
        0x00, 0x00, 0x00, 0xff, 0xff, 0xff, 0xff, 0xff, 0xff, 0xff, 0xff, 0xff, 0xff, 0xff, 0xff,
        0x00, 0x00, 0x00, 0x00, 0x00, 0x00, 0x00, 0x00,
    ];
    assert_eq!(stream, expected);
}

#[test]
fn header_reads_back_the_counts() {
    let instructions: Vec<CircuitInstruction> =
        (0..300).map(|i| gate("x", &[i % 7], &[], &[])).collect();
    let circuit = Circuit::new(7, 3, instructions);
    let stream = generate_qpy_payload(&circuit).unwrap();
    assert_eq!(u32::from_be_bytes(stream[21..25].try_into().unwrap()), 7);
    assert_eq!(u32::from_be_bytes(stream[25..29].try_into().unwrap()), 3);
    assert_eq!(u64::from_be_bytes(stream[41..49].try_into().unwrap()), 300);
}

#[test]
fn empty_circuit_is_head_and_trailer() {
    let circuit = Circuit::new(0, 0, Vec::new());
    let stream = generate_qpy_payload(&circuit).unwrap();
    let mut expected = expected_head(0, 0, 0);
    expected.extend(expected_trailer());
    assert_eq!(stream, expected);
    assert_eq!(stream.len(), 107);
}

#[test]
fn encoding_twice_gives_the_same_bytes() {
    let first = generate_qpy_payload(&bell_circuit()).unwrap();
    let second = generate_qpy_payload(&bell_circuit()).unwrap();
    assert_eq!(first, second);
}

#[test]
fn unsupported_gate_fails_and_leaves_the_sink_alone() {
    let circuit = Circuit::new(1, 0, vec![gate("h", &[0], &[], &[])]);
    assert_eq!(generate_qpy_payload(&circuit), Err(QpyError::UnsupportedInstruction));
    let mut sink = vec![1u8, 2, 3];
    assert_eq!(write_qpy_payload(&circuit, &mut sink), Err(QpyError::UnsupportedInstruction));
    assert_eq!(sink, vec![1u8, 2, 3]);
}

#[test]
fn unsupported_gate_after_supported_ones_fails() {
    let circuit = Circuit::new(
        2,
        0,
        vec![gate("x", &[0], &[], &[]), gate("cx", &[0, 1], &[], &[]), gate("h", &[0], &[], &[])],
    );
    let mut sink = Vec::new();
    assert_eq!(write_qpy_payload(&circuit, &mut sink), Err(QpyError::UnsupportedInstruction));
    assert!(sink.is_empty());
}

#[test]
fn sink_keeps_what_it_held_before_the_stream() {
    let mut sink = vec![0xaau8, 0xbb];
    write_qpy_payload(&bell_circuit(), &mut sink).unwrap();
    assert_eq!(&sink[..2], &[0xaa, 0xbb]);
    assert_eq!(&sink[2..], generate_qpy_payload(&bell_circuit()).unwrap().as_slice());
}

#[test]
fn quarter_turn_parameter_is_big_endian_double() {
    let mut out = Vec::new();
    write_instruction(&mut out, &gate("rz", &[0], &[], &[1.5707963267948966])).unwrap();
    let data = &out[out.len() - 8..];
    assert_eq!(data, &[0x3f, 0xf9, 0x21, 0xfb, 0x54, 0x44, 0x2d, 0x18]);
    let entry = &out[out.len() - 11..];
    assert_eq!(entry[0], b'f');
    assert_eq!(&entry[1..3], &[0, 8]);
}

#[test]
fn cx_has_one_control_and_two_qubit_arguments() {
    let mut out = Vec::new();
    write_instruction(&mut out, &gate("cx", &[0, 1], &[], &[])).unwrap();
    // number of qubit and of classical arguments
    assert_eq!(u32::from_be_bytes(out[6..10].try_into().unwrap()), 2);
    assert_eq!(u32::from_be_bytes(out[10..14].try_into().unwrap()), 0);
    // number of control qubits, control state
    assert_eq!(u32::from_be_bytes(out[25..29].try_into().unwrap()), 1);
    assert_eq!(u32::from_be_bytes(out[29..33].try_into().unwrap()), 1);
    assert_eq!(&out[33..39], b"CXGate");
    assert_eq!(&out[39..], &[b'q', 0, 0, 0, 0, b'q', 0, 0, 0, 1]);
    assert_eq!(out, expected_record("CXGate", 1, &[0, 1], &[], &[]));
}

#[test]
fn bell_circuit_end_to_end() {
    let stream = generate_qpy_payload(&bell_circuit()).unwrap();
    assert_eq!(&stream[..6], b"QISKIT");
    assert_eq!(stream[6], 14);
    // register count
    assert_eq!(u32::from_be_bytes(stream[37..41].try_into().unwrap()), 1);
    // register: kind, standalone, size, name length, in circuit, name, indices
    let register = &stream[63..];
    assert_eq!(register[0], b'c');
    assert_eq!(u32::from_be_bytes(register[2..6].try_into().unwrap()), 2);
    assert_eq!(&register[9..13], b"meas");
    assert_eq!(i64::from_be_bytes(register[13..21].try_into().unwrap()), 0);
    assert_eq!(i64::from_be_bytes(register[21..29].try_into().unwrap()), 1);

    let mut expected = expected_head(2, 2, 5);
    expected.extend(expected_record("SXGate", 0, &[0], &[], &[]));
    expected.extend(expected_record("SXGate", 0, &[1], &[], &[]));
    expected.extend(expected_record("CXGate", 1, &[0, 1], &[], &[]));
    expected.extend(expected_record("Measure", 0, &[0], &[0], &[]));
    expected.extend(expected_record("Measure", 0, &[1], &[1], &[]));
    expected.extend(expected_trailer());
    assert_eq!(stream, expected);
}

#[test]
fn every_supported_gate_has_its_class_name() {
    let table = [
        ("x", "XGate"),
        ("sx", "SXGate"),
        ("cz", "CZGate"),
        ("measure", "Measure"),
        ("reset", "Reset"),
        ("ecr", "ECRGate"),
        ("cx", "CXGate"),
        ("rz", "RZGate"),
        ("id", "IGate"),
    ];
    for (mnemonic, class_name) in table {
        assert_eq!(gate_class(mnemonic), Some(class_name));
    }
    for other in ["h", "", "X", "cxx", "rx", "measure ", "i"] {
        assert_eq!(gate_class(other), None);
    }
}

#[test]
fn only_cx_and_cz_are_controlled() {
    assert_eq!(control_qubits("cx"), 1);
    assert_eq!(control_qubits("cz"), 1);
    for other in ["x", "sx", "measure", "reset", "ecr", "rz", "id", "h"] {
        assert_eq!(control_qubits(other), 0);
    }
}

#[test]
fn arguments_come_qubits_first_in_their_own_order() {
    let mut out = Vec::new();
    write_instruction(&mut out, &gate("measure", &[5, 2], &[9, 4], &[])).unwrap();
    assert_eq!(out, expected_record("Measure", 0, &[5, 2], &[9, 4], &[]));
    assert_eq!(
        &out[33 + 7..],
        &[b'q', 0, 0, 0, 5, b'q', 0, 0, 0, 2, b'c', 0, 0, 0, 9, b'c', 0, 0, 0, 4]
    );
}

#[test]
fn parameters_come_in_their_own_order() {
    let mut out = Vec::new();
    write_instruction(&mut out, &gate("rz", &[3], &[], &[0.25, -1.0])).unwrap();
    assert_eq!(out, expected_record("RZGate", 0, &[3], &[], &[0.25, -1.0]));
}

#[test]
fn too_many_parameters_overflow_the_count() {
    let params = vec![0.0f64; 65536];
    let inst = gate("rz", &[0], &[], &params);
    let mut out = vec![7u8];
    assert_eq!(write_instruction(&mut out, &inst), Err(QpyError::CountOverflow));
    assert_eq!(out, vec![7u8]);
    let circuit = Circuit::new(1, 0, vec![gate("x", &[0], &[], &[]), inst]);
    assert_eq!(generate_qpy_payload(&circuit), Err(QpyError::CountOverflow));
}

#[test]
fn most_parameters_that_fit_are_written() {
    let params = vec![0.0f64; 65535];
    let mut out = Vec::new();
    write_instruction(&mut out, &gate("rz", &[0], &[], &params)).unwrap();
    assert_eq!(&out[4..6], &[0xff, 0xff]);
    assert_eq!(out.len(), 33 + 6 + 5 + 11 * 65535);
}

#[test]
fn first_rejected_instruction_decides_the_error() {
    let too_long = gate("rz", &[0], &[], &vec![0.0f64; 65536]);
    let unknown = gate("h", &[0], &[], &[]);
    let first = Circuit::new(1, 0, vec![too_long.clone(), unknown.clone()]);
    assert_eq!(generate_qpy_payload(&first), Err(QpyError::CountOverflow));
    let second = Circuit::new(1, 0, vec![unknown, too_long]);
    assert_eq!(generate_qpy_payload(&second), Err(QpyError::UnsupportedInstruction));
}

#[test]
fn unknown_gate_is_reported_before_its_counts() {
    let inst = gate("h", &[0], &[], &vec![0.0f64; 65536]);
    let mut out = Vec::new();
    assert_eq!(write_instruction(&mut out, &inst), Err(QpyError::UnsupportedInstruction));
}

#[test]
fn trailer_is_fixed() {
    let mut out = Vec::new();
    write_trailer(&mut out);
    assert_eq!(out, expected_trailer());
    assert_eq!(out.len(), 23);
}
