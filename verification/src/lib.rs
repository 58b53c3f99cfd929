//! Encoding of quantum circuits into the QPY binary interchange format, and
//! packaging of the encoded stream into a sampler job request.
//!
//! [`generate_qpy`] is the writer and [`qpy_formats`] states, byte for byte,
//! what it writes; [`generate_job_params`] compresses a stream, encodes it as
//! text and wraps it in a job request. [`service`] and [`qiskit_target`] hold
//! what a client of the runtime service decides on plain values: exit codes,
//! the choice of an account, the naming of gates.

pub mod big_endian;
pub mod generate_job_params;
pub mod generate_qpy;
pub mod qiskit_circuit;
pub mod qiskit_target;
pub mod qpy_formats;
pub mod service;
pub mod text;

use vstd::prelude::*;

verus! {

/// How a call through the C interface ended.
#[derive(Copy, Clone, Debug, PartialEq, Eq, Structural)]
pub enum ExitCode {
    /// Success.
    Success,
    /// Unexpected null pointer.
    NullPointerError,
    /// Pointer is not aligned to expected data.
    AlignmentError,
    /// An invalid argument was provided during the function call.
    BadArgumentError,
    /// An error we didn't anticipate from IBM Quantum platform.
    QuantumAPIUnhandledError,
    /// The IBM Quantum platform was called with invalid parameters.
    QuantumAPIBadRequest,
    /// The IBM Quantum platform needs to be authenticated before this action.
    QuantumAPIUnauthenticated,
    /// The IBM Quantum platform user is not permitted to perform this action.
    QuantumAPIForbidden,
    /// The IBM Quantum platform returned a 404.
    QuantumAPINotFound,
    /// The IBM Quantum platform returned a 409.
    QuantumAPIConflict,
    /// An error we didn't anticipate from IBM Global Search.
    GlobalSearchAPIUnhandledError,
    /// The IBM Global Search was called with invalid parameters.
    GlobalSearchAPIBadRequest,
    /// The IBM Global Search needs to be authenticated before this action.
    GlobalSearchAPIUnauthenticated,
    /// The IBM Global Search user is not permitted to perform this action.
    GlobalSearchAPIForbidden,
    /// The IBM Global Search returned a 404.
    GlobalSearchAPINotFound,
    /// The IBM Global Search returned a 409.
    GlobalSearchAPIConflict,
    /// An error we didn't anticipate from IBM IAM.
    IAMAPIUnhandledError,
    /// The IBM IAM was called with invalid parameters.
    IAMAPIBadRequest,
    /// The IBM IAM needs to be authenticated before this action.
    IAMAPIUnauthenticated,
    /// The IBM IAM user is not permitted to perform this action.
    IAMAPIForbidden,
    /// The IBM IAM returned a 404.
    IAMAPINotFound,
    /// The IBM IAM returned a 409.
    IAMAPIConflict,
}

impl ExitCode {
    /// The number that stands for the exit code across the C interface:
    /// 0 to 3 for the general codes, then one hundred per service, counted
    /// from its unhandled error.
    pub open spec fn value(self) -> u32 {
        match self {
            ExitCode::Success => 0,
            ExitCode::NullPointerError => 1,
            ExitCode::AlignmentError => 2,
            ExitCode::BadArgumentError => 3,
            ExitCode::QuantumAPIUnhandledError => 100,
            ExitCode::QuantumAPIBadRequest => 101,
            ExitCode::QuantumAPIUnauthenticated => 102,
            ExitCode::QuantumAPIForbidden => 103,
            ExitCode::QuantumAPINotFound => 104,
            ExitCode::QuantumAPIConflict => 105,
            ExitCode::GlobalSearchAPIUnhandledError => 200,
            ExitCode::GlobalSearchAPIBadRequest => 201,
            ExitCode::GlobalSearchAPIUnauthenticated => 202,
            ExitCode::GlobalSearchAPIForbidden => 203,
            ExitCode::GlobalSearchAPINotFound => 204,
            ExitCode::GlobalSearchAPIConflict => 205,
            ExitCode::IAMAPIUnhandledError => 300,
            ExitCode::IAMAPIBadRequest => 301,
            ExitCode::IAMAPIUnauthenticated => 302,
            ExitCode::IAMAPIForbidden => 303,
            ExitCode::IAMAPINotFound => 304,
            ExitCode::IAMAPIConflict => 305,
        }
    }

    /// The number that stands for the exit code across the C interface.
    pub fn code(self) -> (number: u32)
        ensures
            number == self.value(),
    {
        match self {
            ExitCode::Success => 0,
            ExitCode::NullPointerError => 1,
            ExitCode::AlignmentError => 2,
            ExitCode::BadArgumentError => 3,
            ExitCode::QuantumAPIUnhandledError => 100,
            ExitCode::QuantumAPIBadRequest => 101,
            ExitCode::QuantumAPIUnauthenticated => 102,
            ExitCode::QuantumAPIForbidden => 103,
            ExitCode::QuantumAPINotFound => 104,
            ExitCode::QuantumAPIConflict => 105,
            ExitCode::GlobalSearchAPIUnhandledError => 200,
            ExitCode::GlobalSearchAPIBadRequest => 201,
            ExitCode::GlobalSearchAPIUnauthenticated => 202,
            ExitCode::GlobalSearchAPIForbidden => 203,
            ExitCode::GlobalSearchAPINotFound => 204,
            ExitCode::GlobalSearchAPIConflict => 205,
            ExitCode::IAMAPIUnhandledError => 300,
            ExitCode::IAMAPIBadRequest => 301,
            ExitCode::IAMAPIUnauthenticated => 302,
            ExitCode::IAMAPIForbidden => 303,
            ExitCode::IAMAPINotFound => 304,
            ExitCode::IAMAPIConflict => 305,
        }
    }
}

} // verus!
