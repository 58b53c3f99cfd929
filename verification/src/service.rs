//! What the service layer decides without talking to a service: which exit
//! code an HTTP failure stands for, which account of a configuration file is
//! meant, and how a job's status is numbered.

use crate::text::same_text;
use crate::ExitCode;
use vstd::prelude::*;
use vstd::string::StringExecFns;

verus! {

/// The services that the client talks to.
#[derive(Copy, Clone, Debug, PartialEq, Eq, Structural)]
pub enum Api {
    /// The IBM Quantum platform.
    Quantum,
    /// IBM Cloud global search.
    GlobalSearch,
    /// IBM Cloud identity and access management.
    Iam,
}

/// The exit code for an HTTP status that a service answered with.
pub open spec fn response_exit_code(api: Api, status: u16) -> ExitCode {
    match api {
        Api::Quantum => if status == 400 {
            ExitCode::QuantumAPIBadRequest
        } else if status == 401 {
            ExitCode::QuantumAPIUnauthenticated
        } else if status == 403 {
            ExitCode::QuantumAPIForbidden
        } else if status == 404 {
            ExitCode::QuantumAPINotFound
        } else if status == 409 {
            ExitCode::QuantumAPIConflict
        } else {
            ExitCode::QuantumAPIUnhandledError
        },
        Api::GlobalSearch => if status == 400 {
            ExitCode::GlobalSearchAPIBadRequest
        } else if status == 401 {
            ExitCode::GlobalSearchAPIUnauthenticated
        } else if status == 403 {
            ExitCode::GlobalSearchAPIForbidden
        } else if status == 404 {
            ExitCode::GlobalSearchAPINotFound
        } else if status == 409 {
            ExitCode::GlobalSearchAPIConflict
        } else {
            ExitCode::GlobalSearchAPIUnhandledError
        },
        Api::Iam => if status == 400 {
            ExitCode::IAMAPIBadRequest
        } else if status == 401 {
            ExitCode::IAMAPIUnauthenticated
        } else if status == 403 {
            ExitCode::IAMAPIForbidden
        } else if status == 404 {
            ExitCode::IAMAPINotFound
        } else if status == 409 {
            ExitCode::IAMAPIConflict
        } else {
            ExitCode::IAMAPIUnhandledError
        },
    }
}

/// The exit code for a failure of a call that is no answer of the service.
pub open spec fn unhandled_exit_code(api: Api) -> ExitCode {
    match api {
        Api::Quantum => ExitCode::QuantumAPIUnhandledError,
        Api::GlobalSearch => ExitCode::GlobalSearchAPIUnhandledError,
        Api::Iam => ExitCode::IAMAPIUnhandledError,
    }
}

/// How the message of such a failure begins.
pub open spec fn unhandled_heading(api: Api) -> Seq<char> {
    match api {
        Api::Quantum => "Unhandled Qiskit runtime API error:\n\n"@,
        Api::GlobalSearch => "Unhandled IBM Global Search API error:\n\n"@,
        Api::Iam => "Unhandled IBM IAM API error:\n\n"@,
    }
}

/// A failed call to a service: the exit code and a message for the log.
#[derive(Clone, Debug)]
pub struct ServiceError {
    code: ExitCode,
    message: String,
}

/// The mathematical content of a [`ServiceError`].
pub struct ServiceErrorView {
    pub code: ExitCode,
    pub message: Seq<char>,
}

impl View for ServiceError {
    type V = ServiceErrorView;

    closed spec fn view(&self) -> ServiceErrorView {
        ServiceErrorView { code: self.code, message: self.message@ }
    }
}

impl ServiceError {
    /// The error of a service that answered with the HTTP status `status`
    /// and the body `content`.
    pub fn from_response(api: Api, status: u16, content: String) -> (error: ServiceError)
        ensures
            error@.code == response_exit_code(api, status),
            error@.message == content@,
    {
        let code = match api {
            Api::Quantum => match status {
                400 => ExitCode::QuantumAPIBadRequest,
                401 => ExitCode::QuantumAPIUnauthenticated,
                403 => ExitCode::QuantumAPIForbidden,
                404 => ExitCode::QuantumAPINotFound,
                409 => ExitCode::QuantumAPIConflict,
                _ => ExitCode::QuantumAPIUnhandledError,
            },
            Api::GlobalSearch => match status {
                400 => ExitCode::GlobalSearchAPIBadRequest,
                401 => ExitCode::GlobalSearchAPIUnauthenticated,
                403 => ExitCode::GlobalSearchAPIForbidden,
                404 => ExitCode::GlobalSearchAPINotFound,
                409 => ExitCode::GlobalSearchAPIConflict,
                _ => ExitCode::GlobalSearchAPIUnhandledError,
            },
            Api::Iam => match status {
                400 => ExitCode::IAMAPIBadRequest,
                401 => ExitCode::IAMAPIUnauthenticated,
                403 => ExitCode::IAMAPIForbidden,
                404 => ExitCode::IAMAPINotFound,
                409 => ExitCode::IAMAPIConflict,
                _ => ExitCode::IAMAPIUnhandledError,
            },
        };
        ServiceError { code, message: content }
    }

    /// The error of a call that failed without an answer of the service;
    /// `detail` describes the failure.
    pub fn unhandled(api: Api, detail: &str) -> (error: ServiceError)
        ensures
            error@.code == unhandled_exit_code(api),
            error@.message == unhandled_heading(api) + detail@,
    {
        let (code, heading) = match api {
            Api::Quantum => (
                ExitCode::QuantumAPIUnhandledError,
                "Unhandled Qiskit runtime API error:\n\n",
            ),
            Api::GlobalSearch => (
                ExitCode::GlobalSearchAPIUnhandledError,
                "Unhandled IBM Global Search API error:\n\n",
            ),
            Api::Iam => (ExitCode::IAMAPIUnhandledError, "Unhandled IBM IAM API error:\n\n"),
        };
        let mut message = heading.to_owned();
        message.append(detail);
        ServiceError { code, message }
    }

    pub fn code(&self) -> (code: ExitCode)
        ensures
            code == self@.code,
    {
        self.code
    }

    pub fn message(&self) -> (message: &str)
        ensures
            message@ == self@.message,
    {
        self.message.as_str()
    }
}

/// Where a job stands.
#[derive(Copy, Clone, Debug, PartialEq, Eq, Structural)]
pub enum JobStatus {
    Queued,
    Running,
    Completed,
    Cancelled,
    CancelledRanTooLong,
    Failed,
}

impl JobStatus {
    /// The number that stands for the status across the C interface.
    pub open spec fn value(self) -> u32 {
        match self {
            JobStatus::Queued => 0,
            JobStatus::Running => 1,
            JobStatus::Completed => 2,
            JobStatus::Cancelled => 3,
            JobStatus::CancelledRanTooLong => 4,
            JobStatus::Failed => 5,
        }
    }

    /// The number that stands for the status across the C interface.
    pub fn code(self) -> (number: u32)
        ensures
            number == self.value(),
    {
        match self {
            JobStatus::Queued => 0,
            JobStatus::Running => 1,
            JobStatus::Completed => 2,
            JobStatus::Cancelled => 3,
            JobStatus::CancelledRanTooLong => 4,
            JobStatus::Failed => 5,
        }
    }
}

/// Name of the account that is used where none is asked for.
pub const DEFAULT_ACCOUNT: &'static str = "default";

/// Name of the account that is used where there is no default account.
pub const DEFAULT_PLATFORM_ACCOUNT: &'static str = "default-ibm-quantum-platform";

/// Name of the account that is used where there is neither.
pub const DEFAULT_CLOUD_ACCOUNT: &'static str = "default-ibm-cloud";

/// The place of the first of `names` that reads `key`.
pub open spec fn first_named(names: Seq<String>, key: Seq<char>) -> Option<usize>
    decreases names.len(),
{
    if names.len() == 0 {
        None
    } else {
        match first_named(names.drop_last(), key) {
            Some(place) => Some(place),
            None => if names.last()@ == key {
                Some((names.len() - 1) as usize)
            } else {
                None
            },
        }
    }
}

/// The place of the account that a configuration with the accounts `names`
/// gives for a request: the account asked for, or else the first that there
/// is of the default account, the platform's and the cloud's.
pub open spec fn selected_account(requested: Option<Seq<char>>, names: Seq<String>) -> Option<
    usize,
> {
    match requested {
        Some(name) => first_named(names, name),
        None => match first_named(names, DEFAULT_ACCOUNT@) {
            Some(place) => Some(place),
            None => match first_named(names, DEFAULT_PLATFORM_ACCOUNT@) {
                Some(place) => Some(place),
                None => first_named(names, DEFAULT_CLOUD_ACCOUNT@),
            },
        },
    }
}

/// Finds the first of `names` that reads `key`.
pub fn find_account(names: &Vec<String>, key: &str) -> (found: Option<usize>)
    ensures
        found == first_named(names@, key@),
        found matches Some(place) ==> place < names.len() && names[place as int]@ == key@,
{
    let mut i: usize = 0;
    while i < names.len()
        invariant
            i <= names.len(),
            first_named(names@.take(i as int), key@) is None,
        decreases names.len() - i,
    {
        proof {
            assert(names@.take(i + 1).drop_last() =~= names@.take(i as int));
        }
        if same_text(names[i].as_str(), key) {
            proof {
                lemma_first_named_of_prefix(names@, key@, i + 1);
            }
            return Some(i);
        }
        i += 1;
    }
    proof {
        assert(names@.take(i as int) =~= names@);
    }
    None
}

/// A name found among the first of `names` is found there among all.
proof fn lemma_first_named_of_prefix(names: Seq<String>, key: Seq<char>, count: int)
    requires
        0 <= count <= names.len(),
        first_named(names.take(count), key) is Some,
    ensures
        first_named(names, key) == first_named(names.take(count), key),
    decreases names.len(),
{
    if count == names.len() {
        assert(names.take(count) =~= names);
    } else {
        assert(names.drop_last().take(count) =~= names.take(count));
        lemma_first_named_of_prefix(names.drop_last(), key, count);
    }
}

/// Chooses the account of a configuration: the one that is asked for, or
/// else the first that there is of `default`,
/// `default-ibm-quantum-platform` and `default-ibm-cloud`. `None` where the
/// configuration holds no such account.
pub fn select_account(requested: Option<&str>, names: &Vec<String>) -> (chosen: Option<usize>)
    ensures
        chosen == selected_account(
            match requested {
                Some(name) => Some(name@),
                None => None,
            },
            names@,
        ),
        chosen matches Some(place) ==> place < names.len(),
{
    match requested {
        Some(name) => find_account(names, name),
        None => match find_account(names, DEFAULT_ACCOUNT) {
            Some(place) => Some(place),
            None => match find_account(names, DEFAULT_PLATFORM_ACCOUNT) {
                Some(place) => Some(place),
                None => find_account(names, DEFAULT_CLOUD_ACCOUNT),
            },
        },
    }
}

/// The test whether an instance reads `name`.
pub open spec fn reads(name: Seq<char>) -> spec_fn(String) -> bool {
    |crn: String| crn@ == name
}

/// The instances that a service works with: where the account's
/// configuration names an instance, those of `instances` that read like it,
/// in their order; else all of `instances`.
pub open spec fn instances_of(instances: Seq<String>, configured: Option<Seq<char>>) -> Seq<
    String,
> {
    match configured {
        Some(name) => instances.filter(reads(name)),
        None => instances,
    }
}

/// Keeps the instances that the account's configuration allows.
pub fn instances_in_use(instances: Vec<String>, configured: Option<&str>) -> (kept: Vec<String>)
    ensures
        kept@ == instances_of(
            instances@,
            match configured {
                Some(name) => Some(name@),
                None => None,
            },
        ),
{
    let name = match configured {
        Some(name) => name,
        None => {
            return instances;
        },
    };
    let ghost wanted = reads(name@);
    let mut kept: Vec<String> = Vec::new();
    let mut i: usize = 0;
    proof {
        reveal(Seq::filter);
    }
    while i < instances.len()
        invariant
            i <= instances.len(),
            wanted == reads(name@),
            kept@ == instances@.take(i as int).filter(wanted),
        decreases instances.len() - i,
    {
        proof {
            reveal(Seq::filter);
            assert(instances@.take(i + 1).drop_last() =~= instances@.take(i as int));
        }
        if same_text(instances[i].as_str(), name) {
            kept.push(instances[i].clone());
        }
        i += 1;
    }
    proof {
        assert(instances@.take(i as int) =~= instances@);
    }
    kept
}

} // verus!
