//! Common errors that may occur within this crate.
use vstd::prelude::*;
use vstd::string::StringExecFns;

verus! {

/// Error variant, or kind, used to more precisely represent the failure condition.
#[derive(Clone, Copy, Debug, PartialEq)]
pub enum ErrorKind {
    /// Error caused by a decoding routine failure.
    DecodeFailure {
        /// Message explaining why the decoding routine failed.
        message: &'static str,
    },
    /// Error caused by an encoding routine failure.
    EncodeFailure {
        /// Message explaining why the encoding routine failed.
        message: &'static str,
    },
    /// Error caused by a failed conversion attempt due to the types having
    /// incompatible layouts.
    IncompatibleTypes,
    /// Error caused by a misconfigured or invalid codec.
    InvalidCodec {
        /// Reason the codec initialization failed.
        reason: &'static str,
    },
    /// Error caused by an access to memory that is not suitably aligned.
    MisalignedAccess,
    /// Error caused by an invalid pointer that dereferences to null.
    NullReference,
    /// Error originating from an attempted access outside the bounds of a slice or
    /// array.
    OutOfBounds {
        /// Number of bytes needed for the operation.
        needed: usize,
        /// Actual number of available bytes.
        available: usize,
    },
    /// Error occurring when two regions of memory do not have the same size.
    SizeMismatch {
        /// Number of bytes needed to construct the target type.
        needed: usize,
        /// Actual number of available bytes in the buffer.
        available: usize,
    },
    /// Error with an unknown or unexpected origin.
    InternalFailure,
    /// Error with a detailed message meant for debugging purposes.
    Verbose {
        /// Detailed error message explaining the failure.
        message: &'static str,
    },
}

/// Core error type for this crate: a wrapper around an [`ErrorKind`].
#[derive(Clone, Copy, Debug, PartialEq)]
pub struct Error {
    kind: ErrorKind,
}

/// Type alias for `Result` types that use this crate's [`Error`] type.
pub type Result<T> = core::result::Result<T, Error>;

impl Error {
    /// The kind of failure this error carries.
    pub closed spec fn spec_kind(self) -> ErrorKind {
        self.kind
    }

    /// Creates a new [`Error`] instance from an inner [`ErrorKind`].
    pub fn new(kind: ErrorKind) -> (e: Error)
        ensures
            e.spec_kind() == kind,
            e == Error::spec_from_kind(kind),
    {
        Error { kind }
    }

    /// Returns the kind of this error.
    pub fn kind(&self) -> (k: ErrorKind)
        ensures
            k == self.spec_kind(),
    {
        self.kind
    }

    /// The error of a decoding routine that cannot proceed.
    pub open spec fn spec_decode_failed() -> Error {
        Error::spec_from_kind(ErrorKind::DecodeFailure { message: DECODE_FAILED_MESSAGE })
    }

    /// The error of an encoding routine that cannot proceed.
    pub open spec fn spec_encode_failed() -> Error {
        Error::spec_from_kind(ErrorKind::EncodeFailure { message: ENCODE_FAILED_MESSAGE })
    }

    /// The error built from `kind`.
    pub closed spec fn spec_from_kind(kind: ErrorKind) -> Error {
        Error { kind }
    }

    /// The error built from a kind carries that kind.
    pub broadcast proof fn lemma_kind_of_from_kind(kind: ErrorKind)
        ensures
            #[trigger] Error::spec_from_kind(kind).spec_kind() == kind,
    {
    }

    /// An error is the one built from its kind: two errors with the same kind are
    /// equal, and errors with different kinds differ.
    pub broadcast proof fn lemma_from_kind_of_kind(e: Error)
        ensures
            #[trigger] Error::spec_from_kind(e.spec_kind()) == e,
    {
    }

    /// An out-of-bounds error for `needed` bytes where `available` exist.
    pub open spec fn spec_out_of_bounds(needed: usize, available: usize) -> Error {
        Error::spec_from_kind(ErrorKind::OutOfBounds { needed, available })
    }

    /// A size-mismatch error for `needed` bytes where `available` exist.
    pub open spec fn spec_size_mismatch(needed: usize, available: usize) -> Error {
        Error::spec_from_kind(ErrorKind::SizeMismatch { needed, available })
    }

    /// Builds a decode-failure error.
    pub fn decode_failed() -> (e: Error)
        ensures
            e == Error::spec_decode_failed(),
            e.spec_kind() == (ErrorKind::DecodeFailure { message: DECODE_FAILED_MESSAGE }),
    {
        Error { kind: ErrorKind::DecodeFailure { message: DECODE_FAILED_MESSAGE } }
    }

    /// Builds an encode-failure error.
    pub fn encode_failed() -> (e: Error)
        ensures
            e == Error::spec_encode_failed(),
            e.spec_kind() == (ErrorKind::EncodeFailure { message: ENCODE_FAILED_MESSAGE }),
    {
        Error { kind: ErrorKind::EncodeFailure { message: ENCODE_FAILED_MESSAGE } }
    }

    /// Builds an out-of-bounds error.
    pub fn out_of_bounds(needed: usize, available: usize) -> (e: Error)
        ensures
            e == Error::spec_out_of_bounds(needed, available),
            e.spec_kind() == (ErrorKind::OutOfBounds { needed, available }),
    {
        Error { kind: ErrorKind::OutOfBounds { needed, available } }
    }

    /// Builds a misaligned-access error.
    pub fn misaligned_access() -> (e: Error)
        ensures
            e.spec_kind() == ErrorKind::MisalignedAccess,
            e == Error::spec_from_kind(ErrorKind::MisalignedAccess),
    {
        Error { kind: ErrorKind::MisalignedAccess }
    }

    /// Builds a size-mismatch error.
    pub fn size_mismatch(needed: usize, available: usize) -> (e: Error)
        ensures
            e == Error::spec_size_mismatch(needed, available),
            e.spec_kind() == (ErrorKind::SizeMismatch { needed, available }),
    {
        Error { kind: ErrorKind::SizeMismatch { needed, available } }
    }

    /// Builds an internal-failure error.
    pub fn internal_failure() -> (e: Error)
        ensures
            e.spec_kind() == ErrorKind::InternalFailure,
            e == Error::spec_from_kind(ErrorKind::InternalFailure),
    {
        Error { kind: ErrorKind::InternalFailure }
    }

    /// Builds an incompatible-types error.
    pub fn incompatible_types() -> (e: Error)
        ensures
            e.spec_kind() == ErrorKind::IncompatibleTypes,
            e == Error::spec_from_kind(ErrorKind::IncompatibleTypes),
    {
        Error { kind: ErrorKind::IncompatibleTypes }
    }

    /// Builds a null-reference error.
    pub fn null_reference() -> (e: Error)
        ensures
            e.spec_kind() == ErrorKind::NullReference,
            e == Error::spec_from_kind(ErrorKind::NullReference),
    {
        Error { kind: ErrorKind::NullReference }
    }

    /// Builds an error with a detailed message.
    pub fn verbose(message: &'static str) -> (e: Error)
        ensures
            e.spec_kind() == (ErrorKind::Verbose { message }),
            e == Error::spec_from_kind(ErrorKind::Verbose { message }),
    {
        Error { kind: ErrorKind::Verbose { message } }
    }

    /// Builds an invalid-codec error.
    pub fn invalid_codec(reason: &'static str) -> (e: Error)
        ensures
            e.spec_kind() == (ErrorKind::InvalidCodec { reason }),
            e == Error::spec_from_kind(ErrorKind::InvalidCodec { reason }),
    {
        Error { kind: ErrorKind::InvalidCodec { reason } }
    }
}

/// The facts that tie an [`Error`] to its [`ErrorKind`]: with them in scope, the kind
/// (and so the message) of every error a contract names is known.
pub broadcast group group_error_kind {
    Error::lemma_kind_of_from_kind,
    Error::lemma_from_kind_of_kind,
}

/// The character of the decimal digit `d`.
pub open spec fn digit_char(d: nat) -> char {
    (48 + d) as char
}

/// The decimal representation of `n`, most significant digit first.
pub open spec fn decimal(n: nat) -> Seq<char>
    decreases n,
{
    if n < 10 {
        seq![digit_char(n)]
    } else {
        decimal(n / 10).push(digit_char(n % 10))
    }
}

/// Returns the one-character string of the decimal digit `d`.
fn digit_str(d: usize) -> (s: &'static str)
    requires
        d < 10,
    ensures
        s@ == seq![digit_char(d as nat)],
{
    proof {
        reveal_strlit("0");
        reveal_strlit("1");
        reveal_strlit("2");
        reveal_strlit("3");
        reveal_strlit("4");
        reveal_strlit("5");
        reveal_strlit("6");
        reveal_strlit("7");
        reveal_strlit("8");
        reveal_strlit("9");
    }
    match d {
        0 => "0",
        1 => "1",
        2 => "2",
        3 => "3",
        4 => "4",
        5 => "5",
        6 => "6",
        7 => "7",
        8 => "8",
        _ => "9",
    }
}

/// Appends the decimal representation of `n` to `s`.
fn push_decimal(s: &mut String, n: usize)
    ensures
        final(s)@ == old(s)@ + decimal(n as nat),
    decreases n,
{
    if n >= 10 {
        push_decimal(s, n / 10);
    }
    s.append(digit_str(n % 10));
}

impl Error {
    /// The text that describes this error.
    pub open spec fn spec_message(self) -> Seq<char> {
        match self.spec_kind() {
            ErrorKind::OutOfBounds { needed, available } => "Out of bounds error. Required "@
                + decimal(needed as nat) + " bytes, but buffer size can only hold "@ + decimal(
                available as nat,
            ) + " bytes"@,
            ErrorKind::IncompatibleTypes =>
                "Failed to convert one type to another due to incompatible layouts"@,
            ErrorKind::InternalFailure =>
                "Entered unrecoverable failure state with an unknown or unexpected origin"@,
            ErrorKind::MisalignedAccess => "Misaligned memory access caused by misaligned pointer"@,
            ErrorKind::NullReference => "Invalid pointer dereferenced to null"@,
            ErrorKind::SizeMismatch { needed, available } => "Size mismatch error (Required "@
                + decimal(needed as nat) + " bytes, got "@ + decimal(available as nat),
            ErrorKind::Verbose { message } => "[ERROR]: "@ + message@,
            ErrorKind::DecodeFailure { message } => "Decode failed: "@ + message@,
            ErrorKind::EncodeFailure { message } => "Encode failed: "@ + message@,
            ErrorKind::InvalidCodec { reason } => "Invalid codec configuration: "@ + reason@,
        }
    }

    /// Returns the text that describes this error.
    pub fn to_string(&self) -> (s: String)
        ensures
            s@ == self.spec_message(),
    {
        let mut s = String::new();
        match self.kind {
            ErrorKind::OutOfBounds { needed, available } => {
                s.append("Out of bounds error. Required ");
                push_decimal(&mut s, needed);
                s.append(" bytes, but buffer size can only hold ");
                push_decimal(&mut s, available);
                s.append(" bytes");
            },
            ErrorKind::IncompatibleTypes => {
                s.append("Failed to convert one type to another due to incompatible layouts");
            },
            ErrorKind::InternalFailure => {
                s.append(
                    "Entered unrecoverable failure state with an unknown or unexpected origin",
                );
            },
            ErrorKind::MisalignedAccess => {
                s.append("Misaligned memory access caused by misaligned pointer");
            },
            ErrorKind::NullReference => {
                s.append("Invalid pointer dereferenced to null");
            },
            ErrorKind::SizeMismatch { needed, available } => {
                s.append("Size mismatch error (Required ");
                push_decimal(&mut s, needed);
                s.append(" bytes, got ");
                push_decimal(&mut s, available);
            },
            ErrorKind::Verbose { message } => {
                s.append("[ERROR]: ");
                s.append(message);
            },
            ErrorKind::DecodeFailure { message } => {
                s.append("Decode failed: ");
                s.append(message);
            },
            ErrorKind::EncodeFailure { message } => {
                s.append("Encode failed: ");
                s.append(message);
            },
            ErrorKind::InvalidCodec { reason } => {
                s.append("Invalid codec configuration: ");
                s.append(reason);
            },
        }
        s
    }
}

impl Default for ErrorKind {
    /// An internal failure, the kind of an error with an unknown origin.
    fn default() -> (k: ErrorKind)
        ensures
            k == ErrorKind::InternalFailure,
    {
        ErrorKind::InternalFailure
    }
}

impl From<ErrorKind> for Error {
    fn from(kind: ErrorKind) -> (e: Error)
        ensures
            e.spec_kind() == kind,
    {
        Error { kind }
    }
}

impl vstd::std_specs::convert::FromSpecImpl<ErrorKind> for Error {
    open spec fn obeys_from_spec() -> bool {
        true
    }

    open spec fn from_spec(kind: ErrorKind) -> Error {
        Error::spec_from_kind(kind)
    }
}

impl From<&'static str> for Error {
    /// A verbose error that carries `message`.
    fn from(message: &'static str) -> (e: Error)
        ensures
            e.spec_kind() == (ErrorKind::Verbose { message }),
    {
        Error::verbose(message)
    }
}

impl vstd::std_specs::convert::FromSpecImpl<&'static str> for Error {
    open spec fn obeys_from_spec() -> bool {
        true
    }

    open spec fn from_spec(message: &'static str) -> Error {
        Error::spec_from_kind(ErrorKind::Verbose { message })
    }
}

/// The error of a conversion from a slice to an array of another length.
#[verifier::external_type_specification]
#[verifier::external_body]
pub struct ExTryFromSliceError(core::array::TryFromSliceError);

/// The error of a conversion from bytes that are not valid UTF-8.
#[verifier::external_type_specification]
#[verifier::external_body]
pub struct ExUtf8Error(core::str::Utf8Error);

impl From<core::array::TryFromSliceError> for Error {
    /// A slice of the wrong length for an array is an incompatible-types error.
    fn from(err: core::array::TryFromSliceError) -> (e: Error)
        ensures
            e.spec_kind() == ErrorKind::IncompatibleTypes,
    {
        Error::incompatible_types()
    }
}

impl vstd::std_specs::convert::FromSpecImpl<core::array::TryFromSliceError> for Error {
    open spec fn obeys_from_spec() -> bool {
        true
    }

    open spec fn from_spec(err: core::array::TryFromSliceError) -> Error {
        Error::spec_from_kind(ErrorKind::IncompatibleTypes)
    }
}

impl From<core::str::Utf8Error> for Error {
    /// Bytes that are not valid UTF-8 are an incompatible-types error.
    fn from(err: core::str::Utf8Error) -> (e: Error)
        ensures
            e.spec_kind() == ErrorKind::IncompatibleTypes,
    {
        Error::incompatible_types()
    }
}

impl vstd::std_specs::convert::FromSpecImpl<core::str::Utf8Error> for Error {
    open spec fn obeys_from_spec() -> bool {
        true
    }

    open spec fn from_spec(err: core::str::Utf8Error) -> Error {
        Error::spec_from_kind(ErrorKind::IncompatibleTypes)
    }
}

impl From<core::convert::Infallible> for Error {
    /// A conversion that cannot fail has no error; should one arise, it is an
    /// internal failure.
    fn from(err: core::convert::Infallible) -> (e: Error)
        ensures
            e.spec_kind() == ErrorKind::InternalFailure,
    {
        Error::internal_failure()
    }
}

impl vstd::std_specs::convert::FromSpecImpl<core::convert::Infallible> for Error {
    open spec fn obeys_from_spec() -> bool {
        true
    }

    open spec fn from_spec(err: core::convert::Infallible) -> Error {
        Error::spec_from_kind(ErrorKind::InternalFailure)
    }
}

/// Message carried by a decode failure.
pub const DECODE_FAILED_MESSAGE: &'static str =
    "Decoder failed; cannot write malformed bytes due to size or alignment requirements";

/// Message carried by an encode failure.
pub const ENCODE_FAILED_MESSAGE: &'static str =
    "Encoder failed; cannot write malformed bytes due to size or alignment requirements";

} // verus!
