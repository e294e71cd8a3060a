//! Status codes shared by the host and the external runtime, and the errors
//! they decode into.
//!
//! A status code is one byte. Zero is success; `1..=64` is the band of runtime
//! errors, of which the low part belongs to the host side of the bridge and the
//! high part to the external process; everything above `64` is a service error
//! whose meaning only the service knows.

use vstd::prelude::*;
use vstd::string::*;

verus! {

/// Named status codes that both sides of the bridge agree on.
#[derive(Clone, Copy, Debug, PartialEq, Eq, Structural, Hash)]
pub enum PythonRuntimeResult {
    /// Operation completed successfully.
    Success,
    /// The external runtime has not registered its callbacks yet.
    RuntimeNotReady,
    /// The external runtime process is gone.
    RuntimeDead,
    /// The artifact specification is malformed.
    WrongSpec,
    /// Installing the service failed during deployment.
    ServiceInstallFailed,
    /// A runtime error of no particular kind.
    Other,
    /// First code of the band reserved for service errors.
    Service,
}

/// Whether an error belongs to the runtime itself or to a service it hosts.
#[derive(Clone, Copy, Debug, PartialEq, Eq, Structural, Hash)]
pub enum ErrorKind {
    /// Infrastructure-level failure; `code` is the raw status code.
    Runtime { code: u8 },
    /// Application-level failure; `code` is relative to the service band.
    Service { code: u8 },
}

/// A failure reported to the host dispatcher.
#[derive(Debug, PartialEq, Eq)]
pub struct ExecutionError {
    pub kind: ErrorKind,
    pub description: String,
}

/// Mathematical content of an [`ExecutionError`].
pub struct ExecutionErrorView {
    pub kind: ErrorKind,
    pub description: Seq<char>,
}

impl View for ExecutionError {
    type V = ExecutionErrorView;

    open spec fn view(&self) -> ExecutionErrorView {
        ExecutionErrorView { kind: self.kind, description: self.description@ }
    }
}

/// A status code after decoding: which band it fell into, and what it carried.
#[derive(Clone, Copy, Debug, PartialEq, Eq, Structural, Hash)]
pub enum CompletionCode {
    Success,
    RuntimeNotReady,
    RuntimeDead,
    WrongSpec,
    ServiceInstallFailed,
    /// The catch-all runtime error.
    Other,
    /// A code inside the runtime band that no known status uses.
    Unknown { code: u8 },
    /// A service error; `code` counts from the start of the service band.
    Service { code: u8 },
}

/// A breach of the protocol between the two sides of the bridge. Such a
/// breach shows that one side is broken: the caller must fail loudly, not go
/// on as if nothing had happened.
#[derive(Clone, Copy, Debug, PartialEq, Eq, Structural, Hash)]
pub enum ProtocolViolation {
    /// A deployment was requested for an artifact that is still being deployed.
    DuplicateDeployment,
    /// A completion was reported for an artifact that is not being deployed.
    UnknownArtifact,
    /// A mutating storage operation was attempted without mutable access.
    ReadOnlyAccess,
    /// A resource of the external runtime was released a second time.
    DoubleFree,
}

impl ProtocolViolation {
    /// The text that describes the breach.
    pub open spec fn message_spec(self) -> Seq<char> {
        match self {
            ProtocolViolation::DuplicateDeployment =>
                "Python runtime is asked to deploy an artifact that is being deployed"@,
            ProtocolViolation::UnknownArtifact =>
                "Python deployed an artifact that wasn't expected"@,
            ProtocolViolation::ReadOnlyAccess => "Attempt to call mutable method with a snapshot"@,
            ProtocolViolation::DoubleFree => "Attempt to free a resource that was freed already"@,
        }
    }

    /// The text to fail with.
    pub fn message(self) -> (s: String)
        ensures
            s@ == self.message_spec(),
    {
        match self {
            ProtocolViolation::DuplicateDeployment => String::from_str(
                "Python runtime is asked to deploy an artifact that is being deployed",
            ),
            ProtocolViolation::UnknownArtifact => String::from_str(
                "Python deployed an artifact that wasn't expected",
            ),
            ProtocolViolation::ReadOnlyAccess => String::from_str(
                "Attempt to call mutable method with a snapshot",
            ),
            ProtocolViolation::DoubleFree => String::from_str(
                "Attempt to free a resource that was freed already",
            ),
        }
    }
}

/// Last status code of the runtime band.
pub const RUNTIME_BAND_END: u8 = 64;

/// First status code of the service band.
pub const SERVICE_BAND_START: u8 = 65;

/// Codes `3..16` are reserved for the host side of the bridge.
pub open spec fn reserved_host_side(code: u8) -> bool {
    2 < code < 16
}

/// Codes `18..64` are reserved for the external process.
pub open spec fn reserved_external_side(code: u8) -> bool {
    17 < code < 64
}

/// The decoding of every status code.
pub open spec fn decode_spec(value: u8) -> CompletionCode {
    if value == 0 {
        CompletionCode::Success
    } else if value == 1 {
        CompletionCode::RuntimeNotReady
    } else if value == 2 {
        CompletionCode::RuntimeDead
    } else if value == 16 {
        CompletionCode::WrongSpec
    } else if value == 17 {
        CompletionCode::ServiceInstallFailed
    } else if value == 64 {
        CompletionCode::Other
    } else if value < 64 {
        CompletionCode::Unknown { code: value }
    } else {
        CompletionCode::Service { code: (value - 65) as u8 }
    }
}

/// One decimal digit as a character.
pub open spec fn digit_char(d: nat) -> char {
    if d == 0 {
        '0'
    } else if d == 1 {
        '1'
    } else if d == 2 {
        '2'
    } else if d == 3 {
        '3'
    } else if d == 4 {
        '4'
    } else if d == 5 {
        '5'
    } else if d == 6 {
        '6'
    } else if d == 7 {
        '7'
    } else if d == 8 {
        '8'
    } else {
        '9'
    }
}

/// Decimal notation of `n`, most significant digit first, no leading zeros.
pub open spec fn decimal(n: nat) -> Seq<char>
    decreases n,
{
    if n < 10 {
        seq![digit_char(n)]
    } else {
        decimal(n / 10).push(digit_char(n % 10))
    }
}

impl PythonRuntimeResult {
    /// The numeric code of this status.
    pub open spec fn spec_code(self) -> u8 {
        match self {
            PythonRuntimeResult::Success => 0,
            PythonRuntimeResult::RuntimeNotReady => 1,
            PythonRuntimeResult::RuntimeDead => 2,
            PythonRuntimeResult::WrongSpec => 16,
            PythonRuntimeResult::ServiceInstallFailed => 17,
            PythonRuntimeResult::Other => 64,
            PythonRuntimeResult::Service => 65,
        }
    }

    /// The numeric code that crosses the boundary for this status.
    #[verifier::when_used_as_spec(spec_code)]
    pub fn code(self) -> (c: u8)
        ensures
            c == self.spec_code(),
    {
        match self {
            PythonRuntimeResult::Success => 0,
            PythonRuntimeResult::RuntimeNotReady => 1,
            PythonRuntimeResult::RuntimeDead => 2,
            PythonRuntimeResult::WrongSpec => 16,
            PythonRuntimeResult::ServiceInstallFailed => 17,
            PythonRuntimeResult::Other => 64,
            PythonRuntimeResult::Service => 65,
        }
    }

    /// Turns a status code received from the external runtime into the result
    /// that the host dispatcher expects: success for zero, and for every other
    /// code the error that the code decodes to.
    pub fn from_value(value: u8) -> (r: Result<(), ExecutionError>)
        ensures
            r is Ok <==> value == 0,
            r matches Err(e) ==> e@ == decode_spec(value).error(),
    {
        match CompletionCode::decode(value) {
            CompletionCode::Success => Ok(()),
            code => Err(code.to_error()),
        }
    }
}

impl CompletionCode {
    /// Holds of exactly the values that [`decode_spec`] produces.
    pub open spec fn wf(self) -> bool {
        match self {
            CompletionCode::Unknown { code } => reserved_host_side(code) || reserved_external_side(
                code,
            ),
            CompletionCode::Service { code } => code <= 190,
            _ => true,
        }
    }

    /// The status code that decodes to `self`.
    pub open spec fn encode_spec(self) -> u8 {
        match self {
            CompletionCode::Success => 0,
            CompletionCode::RuntimeNotReady => 1,
            CompletionCode::RuntimeDead => 2,
            CompletionCode::WrongSpec => 16,
            CompletionCode::ServiceInstallFailed => 17,
            CompletionCode::Other => 64,
            CompletionCode::Unknown { code } => code,
            CompletionCode::Service { code } => (code + 65) as u8,
        }
    }

    /// The kind of error that this code stands for. Success has none; it is
    /// given the runtime kind with code zero so that the function is total.
    pub open spec fn kind(self) -> ErrorKind {
        match self {
            CompletionCode::Service { code } => ErrorKind::Service { code },
            _ => ErrorKind::Runtime { code: self.encode_spec() },
        }
    }

    /// The text that accompanies this code when it is reported as an error.
    pub open spec fn description(self) -> Seq<char> {
        match self {
            CompletionCode::Success => Seq::empty(),
            CompletionCode::RuntimeNotReady => "Python runtime is not initialized"@,
            CompletionCode::RuntimeDead => "Python runtime process is terminated"@,
            CompletionCode::WrongSpec => "Incorrect Python artifact spec"@,
            CompletionCode::ServiceInstallFailed => "Service installation failed"@,
            CompletionCode::Other => "Unspecified runtime error"@,
            CompletionCode::Unknown { code } => if code < 16 {
                "Unknown error code "@ + decimal(code as nat)
                    + " on the Rust side of Python Runtime"@
            } else {
                "Unkonwn error code "@ + decimal(code as nat)
                    + " on the Python side of Python runtime"@
            },
            CompletionCode::Service { code } =>
                "Python Service execution error. Check service docs for description of this error code"@,
        }
    }

    /// The error that the host sees for this code.
    pub open spec fn error(self) -> ExecutionErrorView {
        ExecutionErrorView { kind: self.kind(), description: self.description() }
    }

    /// Classifies a raw status code.
    pub fn decode(value: u8) -> (c: CompletionCode)
        ensures
            c == decode_spec(value),
            c.wf(),
            c.encode_spec() == value,
    {
        if value == 0 {
            CompletionCode::Success
        } else if value == 1 {
            CompletionCode::RuntimeNotReady
        } else if value == 2 {
            CompletionCode::RuntimeDead
        } else if value == 16 {
            CompletionCode::WrongSpec
        } else if value == 17 {
            CompletionCode::ServiceInstallFailed
        } else if value == RUNTIME_BAND_END {
            CompletionCode::Other
        } else if value < RUNTIME_BAND_END {
            CompletionCode::Unknown { code: value }
        } else {
            CompletionCode::Service { code: value - SERVICE_BAND_START }
        }
    }

    /// The raw status code of a classified one.
    pub fn encode(self) -> (value: u8)
        requires
            self.wf(),
        ensures
            value == self.encode_spec(),
            decode_spec(value) == self,
    {
        match self {
            CompletionCode::Success => 0,
            CompletionCode::RuntimeNotReady => 1,
            CompletionCode::RuntimeDead => 2,
            CompletionCode::WrongSpec => 16,
            CompletionCode::ServiceInstallFailed => 17,
            CompletionCode::Other => RUNTIME_BAND_END,
            CompletionCode::Unknown { code } => code,
            CompletionCode::Service { code } => code + SERVICE_BAND_START,
        }
    }

    /// Whether the code reports a failure of the runtime rather than of a
    /// service: the host treats the former as infrastructure-level.
    pub fn is_runtime_error(self) -> (b: bool)
        ensures
            b <==> self != CompletionCode::Success && self.kind() is Runtime,
    {
        match self {
            CompletionCode::Success => false,
            CompletionCode::Service { .. } => false,
            _ => true,
        }
    }

    /// Builds the error that a code other than success stands for.
    pub fn to_error(self) -> (e: ExecutionError)
        requires
            self.wf(),
            self != CompletionCode::Success,
        ensures
            e@ == self.error(),
    {
        let kind = match self {
            CompletionCode::Service { code } => ErrorKind::Service { code },
            _ => ErrorKind::Runtime { code: self.encode() },
        };
        let description = match self {
            CompletionCode::Success => String::new(),
            CompletionCode::RuntimeNotReady => String::from_str(
                "Python runtime is not initialized",
            ),
            CompletionCode::RuntimeDead => String::from_str(
                "Python runtime process is terminated",
            ),
            CompletionCode::WrongSpec => String::from_str("Incorrect Python artifact spec"),
            CompletionCode::ServiceInstallFailed => String::from_str(
                "Service installation failed",
            ),
            CompletionCode::Other => String::from_str("Unspecified runtime error"),
            CompletionCode::Unknown { code } => {
                let digits = decimal_string(code);
                if code < 16 {
                    String::from_str("Unknown error code ").concat(digits.as_str()).concat(
                        " on the Rust side of Python Runtime",
                    )
                } else {
                    String::from_str("Unkonwn error code ").concat(digits.as_str()).concat(
                        " on the Python side of Python runtime",
                    )
                }
            },
            CompletionCode::Service { .. } => String::from_str(
                "Python Service execution error. Check service docs for description of this error code",
            ),
        };
        ExecutionError { kind, description }
    }
}

impl Clone for ExecutionError {
    fn clone(&self) -> (e: Self)
        ensures
            e@ == self@,
    {
        ExecutionError { kind: self.kind, description: self.description.clone() }
    }
}

impl ExecutionError {
    /// Whether two errors have the same kind and the same description.
    pub fn same_as(&self, other: &ExecutionError) -> (b: bool)
        ensures
            b <==> self@ == other@,
    {
        let same_kind = match (self.kind, other.kind) {
            (ErrorKind::Runtime { code: a }, ErrorKind::Runtime { code: b }) => a == b,
            (ErrorKind::Service { code: a }, ErrorKind::Service { code: b }) => a == b,
            _ => false,
        };
        same_kind && self.description == other.description
    }
}

/// The one-character string of a decimal digit.
fn digit_str(d: u8) -> (s: &'static str)
    requires
        d < 10,
    ensures
        s@ == seq![digit_char(d as nat)],
{
    proof {
        reveal_strlit("0");
        reveal_strlit("1");
        reveal_strlit("2");
        reveal_strlit("3");
        reveal_strlit("4");
        reveal_strlit("5");
        reveal_strlit("6");
        reveal_strlit("7");
        reveal_strlit("8");
        reveal_strlit("9");
    }
    let s = if d == 0 {
        "0"
    } else if d == 1 {
        "1"
    } else if d == 2 {
        "2"
    } else if d == 3 {
        "3"
    } else if d == 4 {
        "4"
    } else if d == 5 {
        "5"
    } else if d == 6 {
        "6"
    } else if d == 7 {
        "7"
    } else if d == 8 {
        "8"
    } else {
        "9"
    };
    assert(s@ =~= seq![digit_char(d as nat)]);
    s
}

/// Writes a status code in decimal.
pub fn decimal_string(code: u8) -> (s: String)
    ensures
        s@ == decimal(code as nat),
        1 <= s@.len() <= 3,
{
    let ones = digit_str(code % 10);
    if code < 10 {
        String::from_str(ones)
    } else if code < 100 {
        let tens = digit_str(code / 10);
        let s = String::from_str(tens).concat(ones);
        proof {
            assert(decimal((code / 10) as nat) == seq![digit_char((code / 10) as nat)]);
            assert(s@ =~= decimal(code as nat));
        }
        s
    } else {
        let hundreds = digit_str(code / 100);
        let tens = digit_str((code / 10) % 10);
        let s = String::from_str(hundreds).concat(tens).concat(ones);
        proof {
            let n = code as nat;
            assert(decimal(n / 10 / 10) == seq![digit_char(n / 10 / 10)]);
            assert(decimal(n / 10) == decimal(n / 10 / 10).push(digit_char(n / 10 % 10)));
            assert(n / 10 / 10 == n / 100);
            assert(s@ =~= decimal(n));
        }
        s
    }
}

/// Decoding undoes encoding: every well-formed completion code is the
/// decoding of its own status code.
pub proof fn lemma_decode_encode(c: CompletionCode)
    requires
        c.wf(),
    ensures
        decode_spec(c.encode_spec()) == c,
{
}

/// Encoding undoes decoding: every status code is the encoding of what it
/// decodes to, and what it decodes to is well-formed.
pub proof fn lemma_encode_decode(value: u8)
    ensures
        decode_spec(value).wf(),
        decode_spec(value).encode_spec() == value,
{
}

/// Only zero decodes to success, and a code of the runtime band that no
/// known status uses decodes to the variant that carries it unchanged.
pub proof fn lemma_unknown_codes_are_kept(value: u8)
    ensures
        decode_spec(value) == CompletionCode::Success <==> value == 0,
        reserved_host_side(value) || reserved_external_side(value) ==> decode_spec(value)
            == (CompletionCode::Unknown { code: value }),
        decode_spec(value) matches CompletionCode::Unknown { code } ==> code == value,
        value != 0 && value <= 64 ==> decode_spec(value).kind() == (ErrorKind::Runtime {
            code: value,
        }),
        value >= 65 ==> decode_spec(value).kind() == (ErrorKind::Service {
            code: (value - 65) as u8,
        }),
{
}

} // verus!
