use flate2::read::ZlibDecoder;
use qiskit_runtime_client::generate_job_params::{
    create_sampler_job_payload, encode_compressed, generate_single_pubs_payload,
    pack_qpy_stream, package_sampler_job, requested_shots, sampler_request, single_circuit,
    PayloadError,
    SamplerInput, SamplerJobPayload, SamplerPub, API_VERSION, PROGRAM_ID,
};
use qiskit_runtime_client::generate_qpy::{generate_qpy_payload, QpyError};
use qiskit_runtime_client::qiskit_circuit::{Circuit, CircuitInstruction};
use std::io::Read;

fn gate(name: &str, qubits: &[u32], clbits: &[u32]) -> CircuitInstruction {
    CircuitInstruction {
        name: name.to_string(),
        qubits: qubits.to_vec(),
        clbits: clbits.to_vec(),
        params: Vec::new(),
    }
}

fn bell_circuit() -> Circuit {
    Circuit::new(
        2,
        2,
        vec![
            gate("sx", &[0], &[]),
            gate("sx", &[1], &[]),
            gate("cx", &[0, 1], &[]),
            gate("measure", &[0], &[0]),
            gate("measure", &[1], &[1]),
        ],
    )
}

fn hundred_bytes() -> Vec<u8> {
    (0..100u32).map(|i| (i * 37 % 251) as u8).collect()
}

/// Undoes the packing with the decoders of the two outside crates.
fn unpack(text: &str) -> Vec<u8> {
    let compressed = base64_simd::STANDARD.decode_to_vec(text).unwrap();
    let mut stream = Vec::new();
    ZlibDecoder::new(compressed.as_slice()).read_to_end(&mut stream).unwrap();
    stream
}

fn circuit_text(entry: &SamplerPub) -> &str {
    match entry {
        SamplerPub::Circuit(text) => text,
    }
}

#[test]
fn packing_twice_gives_the_same_text() {
    let stream = hundred_bytes();
    assert_eq!(stream.len(), 100);
    let first = pack_qpy_stream(&stream).unwrap();
    let second = pack_qpy_stream(&stream).unwrap();
    assert_eq!(first, second);
}

#[test]
fn packed_text_unpacks_to_the_stream() {
    let stream = hundred_bytes();
    let text = pack_qpy_stream(&stream).unwrap();
    assert_ne!(text.as_bytes(), stream.as_slice());
    assert_eq!(unpack(&text), stream);
}

#[test]
fn packed_text_is_padded_standard_base64_of_a_zlib_stream() {
    let text = pack_qpy_stream(&hundred_bytes()).unwrap();
    assert_eq!(text.len() % 4, 0);
    assert!(text
        .bytes()
        .all(|b| b.is_ascii_alphanumeric() || b == b'+' || b == b'/' || b == b'='));
    let compressed = base64_simd::STANDARD.decode_to_vec(&text).unwrap();
    // zlib header: deflate with a 32K window, default compression level
    assert_eq!(&compressed[..2], &[0x78, 0x9c]);
}

#[test]
fn empty_stream_packs_to_the_empty_zlib_stream() {
    let text = pack_qpy_stream(&Vec::new()).unwrap();
    assert_eq!(text, "eJwDAAAAAAE=");
    assert_eq!(unpack(&text), Vec::<u8>::new());
}

#[test]
fn compressible_stream_gets_shorter() {
    let stream = vec![0u8; 4096];
    let text = pack_qpy_stream(&stream).unwrap();
    assert!(text.len() < 100);
    assert_eq!(unpack(&text), stream);
}

#[test]
fn single_pubs_payload_carries_the_encoded_circuit() {
    let circuit = bell_circuit();
    let pubs = generate_single_pubs_payload(&circuit).unwrap();
    assert_eq!(pubs.len(), 1);
    let text = circuit_text(&pubs[0]);
    assert_eq!(unpack(text), generate_qpy_payload(&circuit).unwrap());
    assert_eq!(text, pack_qpy_stream(&generate_qpy_payload(&circuit).unwrap()).unwrap());
}

#[test]
fn sampler_job_payload_has_the_fixed_fields_and_the_settings() {
    let circuit = bell_circuit();
    let payload = create_sampler_job_payload(
        &circuit,
        "ibm_test".to_string(),
        Some(1024),
        Some("qiskit".to_string()),
        Some(vec!["a".to_string(), "b".to_string()]),
    )
    .unwrap();
    assert_eq!(payload.program_id, "sampler");
    assert_eq!(payload.program_id, PROGRAM_ID);
    assert_eq!(payload.backend, "ibm_test");
    assert_eq!(payload.runtime, Some("qiskit".to_string()));
    assert_eq!(payload.tags, Some(vec!["a".to_string(), "b".to_string()]));
    assert_eq!(payload.version, 2);
    assert_eq!(payload.version, API_VERSION);
    assert_eq!(payload.params.shots, Some(1024));
    assert_eq!(payload.params.version, 2);
    assert_eq!(payload.params.pubs, generate_single_pubs_payload(&circuit).unwrap());
}

#[test]
fn sampler_job_payload_leaves_absent_settings_absent() {
    let payload =
        create_sampler_job_payload(&bell_circuit(), "ibm_test".to_string(), None, None, None)
            .unwrap();
    assert_eq!(payload.runtime, None);
    assert_eq!(payload.tags, None);
    assert_eq!(payload.params.shots, None);
    assert_eq!(payload.params.pubs.len(), 1);
}

#[test]
fn packaging_a_finished_stream_matches_packaging_the_circuit() {
    let circuit = bell_circuit();
    let stream = generate_qpy_payload(&circuit).unwrap();
    let from_stream =
        package_sampler_job(&stream, "ibm_test".to_string(), Some(10), None, None).unwrap();
    let from_circuit =
        create_sampler_job_payload(&circuit, "ibm_test".to_string(), Some(10), None, None)
            .unwrap();
    assert_eq!(from_stream, from_circuit);
    assert_eq!(unpack(circuit_text(&from_stream.params.pubs[0])), stream);
}

#[test]
fn packaging_a_hundred_bytes_twice_gives_the_same_payload() {
    let stream = hundred_bytes();
    let first = package_sampler_job(&stream, "b".to_string(), None, None, None).unwrap();
    let second = package_sampler_job(&stream, "b".to_string(), None, None, None).unwrap();
    assert_eq!(first.params.pubs, second.params.pubs);
    assert_eq!(first, second);
}

#[test]
fn circuit_that_cannot_be_encoded_gives_no_payload() {
    let circuit = Circuit::new(1, 0, vec![gate("h", &[0], &[])]);
    assert_eq!(
        generate_single_pubs_payload(&circuit),
        Err(PayloadError::Encoding(QpyError::UnsupportedInstruction))
    );
    assert_eq!(
        create_sampler_job_payload(&circuit, "ibm_test".to_string(), None, None, None),
        Err(PayloadError::Encoding(QpyError::UnsupportedInstruction))
    );
}

#[test]
fn overflowing_circuit_gives_no_payload() {
    let mut inst = gate("rz", &[0], &[]);
    inst.params = vec![0u64; 65536];
    let circuit = Circuit::new(1, 0, vec![inst]);
    assert_eq!(
        generate_single_pubs_payload(&circuit),
        Err(PayloadError::Encoding(QpyError::CountOverflow))
    );
}

#[test]
fn compressor_failure_is_reported() {
    assert_eq!(encode_compressed(None), Err(PayloadError::Compression));
}

#[test]
fn compressed_bytes_become_standard_base64() {
    assert_eq!(encode_compressed(Some(b"hello".to_vec())), Ok("aGVsbG8=".to_string()));
    assert_eq!(encode_compressed(Some(b"hello!".to_vec())), Ok("aGVsbG8h".to_string()));
    assert_eq!(encode_compressed(Some(vec![0xfb, 0xff])), Ok("+/8=".to_string()));
    assert_eq!(encode_compressed(Some(Vec::new())), Ok(String::new()));
}

#[test]
fn single_circuit_is_the_only_entry() {
    let pubs = single_circuit("abcd".to_string());
    assert_eq!(pubs, vec![SamplerPub::Circuit("abcd".to_string())]);
}

#[test]
fn sampler_request_keeps_what_it_is_given() {
    let pubs = single_circuit("abcd".to_string());
    let request = sampler_request(
        pubs.clone(),
        "ibm_backend".to_string(),
        Some(7),
        None,
        Some(vec!["tag".to_string()]),
    );
    assert_eq!(
        request,
        SamplerJobPayload {
            program_id: "sampler".to_string(),
            backend: "ibm_backend".to_string(),
            runtime: None,
            tags: Some(vec!["tag".to_string()]),
            version: 2,
            params: SamplerInput { pubs, shots: Some(7), version: 2 },
        }
    );
}

#[test]
fn negative_shots_ask_for_nothing() {
    assert_eq!(requested_shots(-1), None);
    assert_eq!(requested_shots(i32::MIN), None);
    assert_eq!(requested_shots(0), Some(0));
    assert_eq!(requested_shots(4096), Some(4096));
    assert_eq!(requested_shots(i32::MAX), Some(i32::MAX));
}
