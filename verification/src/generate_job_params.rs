//! The job payload packager: compresses a finished QPY stream, encodes it as
//! base64 text and embeds it as the single circuit of a sampler job request.

use crate::generate_qpy::{encoding, generate_qpy_payload, QpyError};
use crate::qiskit_circuit::{Circuit, CircuitView};
use std::io::Write;
use vstd::prelude::*;

verus! {

/// Identifier of the sampler program.
pub const PROGRAM_ID: &'static str = "sampler";

/// Version marker of the request schema.
pub const API_VERSION: u32 = 2;

/// The zlib stream that `flate2` makes of `data` at its default compression
/// level, `None` where it reports a failure.
pub uninterp spec fn zlib_stream(data: Seq<u8>) -> Option<Seq<u8>>;

/// The base64 text that `base64_simd` makes of `data`, in the standard
/// alphabet and with padding.
pub uninterp spec fn base64_standard(data: Seq<u8>) -> Seq<char>;

/// Number of characters of the padded base64 text of `len` bytes.
pub open spec fn base64_length(len: nat) -> nat {
    4 * ((len + 2) / 3)
}

/// Compresses `data` with `flate2::write::ZlibEncoder` over an in-memory
/// buffer, made by `ZlibEncoder::new` at `flate2::Compression::default()`:
/// the whole of `data` goes in with one `write_all`, and `finish` hands the
/// compressed bytes out. An error of either call gives `None`.
///
/// Trusted, not proved: that the outcome, failure included, depends on `data`
/// alone, so that it can go by the name `zlib_stream(data)`.
#[verifier::external_body]
fn zlib_compress(data: &Vec<u8>) -> (compressed: Option<Vec<u8>>)
    ensures
        match compressed {
            Some(bytes) => zlib_stream(data@) == Some(bytes@),
            None => zlib_stream(data@) is None,
        },
{
    let mut encoder = flate2::write::ZlibEncoder::new(Vec::new(), flate2::Compression::default());
    match encoder.write_all(data) {
        Ok(()) => encoder.finish().ok(),
        Err(_) => None,
    }
}

/// Encodes `data` with `base64_simd::STANDARD.encode_to_string`.
///
/// Trusted, not proved: that the text depends on `data` alone, so that it can
/// go by the name `base64_standard(data)`. The call panics where the text
/// would be longer than `usize::MAX / 2`, so such data is not admitted.
#[verifier::external_body]
fn base64_encode(data: &Vec<u8>) -> (text: String)
    requires
        base64_length(data@.len()) <= usize::MAX / 2,
    ensures
        text@ == base64_standard(data@),
{
    base64_simd::STANDARD.encode_to_string(data)
}

/// Why a job payload cannot be made.
#[derive(Debug, Clone, Copy, PartialEq, Eq, Structural)]
pub enum PayloadError {
    /// The circuit cannot be encoded.
    Encoding(QpyError),
    /// The compressor reported a failure.
    Compression,
    /// The compressed stream is too long for its base64 text to be held in memory.
    TooLarge,
}

/// What is made of the compressor's outcome: the base64 text of the
/// compressed bytes, unless there are none or too many of them.
pub open spec fn text_of(compressed: Option<Seq<u8>>) -> Result<Seq<char>, PayloadError> {
    match compressed {
        None => Err(PayloadError::Compression),
        Some(bytes) => if base64_length(bytes.len()) <= usize::MAX / 2 {
            Ok(base64_standard(bytes))
        } else {
            Err(PayloadError::TooLarge)
        },
    }
}

/// What packing a QPY stream gives: the base64 text of its zlib stream.
pub open spec fn packed_stream(qpy: Seq<u8>) -> Result<Seq<char>, PayloadError> {
    text_of(zlib_stream(qpy))
}

/// Whether `result` holds the text `expected`, or fails with the error `expected`.
pub open spec fn is_text(result: Result<String, PayloadError>, expected: Result<
    Seq<char>,
    PayloadError,
>) -> bool {
    match result {
        Ok(text) => expected == Ok::<Seq<char>, PayloadError>(text@),
        Err(error) => expected == Err::<Seq<char>, PayloadError>(error),
    }
}

/// Whether `result` is what packing `qpy` gives.
pub open spec fn is_packing_of(result: Result<String, PayloadError>, qpy: Seq<u8>) -> bool {
    is_text(result, packed_stream(qpy))
}

/// Encodes what the compressor handed out as base64 text. `None` stands for
/// a failure of the compressor.
pub fn encode_compressed(compressed: Option<Vec<u8>>) -> (result: Result<String, PayloadError>)
    ensures
        is_text(
            result,
            text_of(
                match compressed {
                    Some(bytes) => Some(bytes@),
                    None => None,
                },
            ),
        ),
{
    let bytes = match compressed {
        Some(bytes) => bytes,
        None => {
            return Err(PayloadError::Compression);
        },
    };
    // Three bytes make four characters, so this is the longest input whose
    // text is no longer than `usize::MAX / 2`.
    if bytes.len() > usize::MAX / 8 * 3 {
        return Err(PayloadError::TooLarge);
    }
    Ok(base64_encode(&bytes))
}

/// Compresses a QPY stream and encodes the compressed bytes as base64 text.
pub fn pack_qpy_stream(qpy: &Vec<u8>) -> (result: Result<String, PayloadError>)
    ensures
        is_packing_of(result, qpy@),
{
    encode_compressed(zlib_compress(qpy))
}

/// The shot count that a caller of the C interface asks for: a negative
/// number stands for no request.
pub fn requested_shots(shots: i32) -> (request: Option<i32>)
    ensures
        request == if shots < 0 {
            None
        } else {
            Some(shots)
        },
{
    if shots < 0 {
        None
    } else {
        Some(shots)
    }
}

/// One entry of the `pubs` list of a sampler job.
#[derive(Debug, Clone, PartialEq, Eq)]
pub enum SamplerPub {
    /// A circuit, given as the base64 text of its compressed QPY stream.
    Circuit(String),
}

/// The sampler's own part of a job request.
#[derive(Debug, Clone, PartialEq, Eq)]
pub struct SamplerInput {
    pub pubs: Vec<SamplerPub>,
    pub shots: Option<i32>,
    pub version: u32,
}

/// A request to run one circuit with the sampler program.
#[derive(Debug, Clone, PartialEq, Eq)]
pub struct SamplerJobPayload {
    pub program_id: String,
    pub backend: String,
    pub runtime: Option<String>,
    pub tags: Option<Vec<String>>,
    pub version: u32,
    pub params: SamplerInput,
}

/// Whether `pubs` is the list that carries the circuit `text` and nothing else.
pub open spec fn is_single_circuit(pubs: Seq<SamplerPub>, text: Seq<char>) -> bool {
    &&& pubs.len() == 1
    &&& pubs[0] matches SamplerPub::Circuit(value)
    &&& value@ == text
}

/// Whether `payload` is the sampler request for the circuit `text` with the
/// given settings.
pub open spec fn is_sampler_request(
    payload: SamplerJobPayload,
    text: Seq<char>,
    backend: String,
    shots: Option<i32>,
    runtime: Option<String>,
    tags: Option<Vec<String>>,
) -> bool {
    &&& payload.program_id@ == PROGRAM_ID@
    &&& payload.backend == backend
    &&& payload.runtime == runtime
    &&& payload.tags == tags
    &&& payload.version == API_VERSION
    &&& payload.params.shots == shots
    &&& payload.params.version == API_VERSION
    &&& is_single_circuit(payload.params.pubs@, text)
}

/// The `pubs` list that carries one circuit and nothing else.
pub fn single_circuit(text: String) -> (pubs: Vec<SamplerPub>)
    ensures
        is_single_circuit(pubs@, text@),
{
    let mut pubs: Vec<SamplerPub> = Vec::with_capacity(1);
    pubs.push(SamplerPub::Circuit(text));
    pubs
}

/// The request of a sampler job on `backend` that carries `pubs`: the fixed
/// program identifier and version marker, and the settings as they are given.
pub fn sampler_request(
    pubs: Vec<SamplerPub>,
    backend: String,
    shots: Option<i32>,
    runtime: Option<String>,
    tags: Option<Vec<String>>,
) -> (payload: SamplerJobPayload)
    ensures
        payload.program_id@ == PROGRAM_ID@,
        payload.backend == backend,
        payload.runtime == runtime,
        payload.tags == tags,
        payload.version == API_VERSION,
        payload.params.shots == shots,
        payload.params.version == API_VERSION,
        payload.params.pubs == pubs,
{
    SamplerJobPayload {
        program_id: PROGRAM_ID.to_owned(),
        backend,
        runtime,
        tags,
        version: API_VERSION,
        params: SamplerInput { pubs, shots, version: API_VERSION },
    }
}

/// Job payload packager: compresses and encodes a finished QPY stream and
/// wraps it in the request of a sampler job on `backend`.
pub fn package_sampler_job(
    qpy: &Vec<u8>,
    backend: String,
    shots: Option<i32>,
    runtime: Option<String>,
    tags: Option<Vec<String>>,
) -> (result: Result<SamplerJobPayload, PayloadError>)
    ensures
        match result {
            Ok(payload) => packed_stream(qpy@) is Ok && is_sampler_request(
                payload,
                packed_stream(qpy@)->Ok_0,
                backend,
                shots,
                runtime,
                tags,
            ),
            Err(error) => packed_stream(qpy@) == Err::<Seq<char>, PayloadError>(error),
        },
{
    match pack_qpy_stream(qpy) {
        Ok(text) => Ok(sampler_request(single_circuit(text), backend, shots, runtime, tags)),
        Err(error) => Err(error),
    }
}

/// What the text of a circuit in a job request is: the packing of its QPY
/// stream, or the reason why there is none.
pub open spec fn circuit_text(circuit: CircuitView) -> Result<Seq<char>, PayloadError> {
    match encoding(circuit) {
        Ok(qpy) => packed_stream(qpy),
        Err(error) => Err(PayloadError::Encoding(error)),
    }
}

/// Encodes a circuit and packs it as the single entry of a `pubs` list.
pub fn generate_single_pubs_payload(circuit: &Circuit) -> (result: Result<
    Vec<SamplerPub>,
    PayloadError,
>)
    ensures
        match result {
            Ok(pubs) => circuit_text(circuit@) is Ok && is_single_circuit(
                pubs@,
                circuit_text(circuit@)->Ok_0,
            ),
            Err(error) => circuit_text(circuit@) == Err::<Seq<char>, PayloadError>(error),
        },
{
    let qpy = match generate_qpy_payload(circuit) {
        Ok(qpy) => qpy,
        Err(error) => {
            return Err(PayloadError::Encoding(error));
        },
    };
    match pack_qpy_stream(&qpy) {
        Ok(text) => Ok(single_circuit(text)),
        Err(error) => Err(error),
    }
}

/// Encodes a circuit and wraps it in the request of a sampler job on
/// `backend`.
pub fn create_sampler_job_payload(
    circuit: &Circuit,
    backend: String,
    shots: Option<i32>,
    runtime: Option<String>,
    tags: Option<Vec<String>>,
) -> (result: Result<SamplerJobPayload, PayloadError>)
    ensures
        match result {
            Ok(payload) => circuit_text(circuit@) is Ok && is_sampler_request(
                payload,
                circuit_text(circuit@)->Ok_0,
                backend,
                shots,
                runtime,
                tags,
            ),
            Err(error) => circuit_text(circuit@) == Err::<Seq<char>, PayloadError>(error),
        },
{
    match generate_single_pubs_payload(circuit) {
        Ok(pubs) => Ok(sampler_request(pubs, backend, shots, runtime, tags)),
        Err(error) => Err(error),
    }
}

/// Packing is deterministic: two packings of streams with the same bytes
/// end alike, with the same text or with the same error.
pub proof fn lemma_packing_is_deterministic(
    first: Vec<u8>,
    second: Vec<u8>,
    first_result: Result<String, PayloadError>,
    second_result: Result<String, PayloadError>,
)
    requires
        first@ == second@,
        is_packing_of(first_result, first@),
        is_packing_of(second_result, second@),
    ensures
        match (first_result, second_result) {
            (Ok(a), Ok(b)) => a@ == b@,
            (Err(a), Err(b)) => a == b,
            _ => false,
        },
{
}

} // verus!
