//! Failure kinds and the exit status the command line reports for them.

use vstd::prelude::*;

verus! {

/// Why an operation on an environment did not take effect.
///
/// Whatever the kind, the operation left every persisted value as it was.
#[derive(Clone, Copy, Debug, PartialEq, Eq, Structural)]
pub enum ErrorKind {
    /// A manifest or a package specifier is malformed.
    ValidationError,
    /// Another writer moved the cursor after this operation read its base.
    ConcurrentModification,
    /// The generation asked for is not in the chain.
    UnknownGeneration,
    /// There is no generation before the one in use.
    NoPreviousGeneration,
    /// The chain holds nothing besides the generation in use.
    NothingToWipe,
    /// Local and remote chains cannot be reconciled without `force`.
    DivergedHistory,
    /// The resolver, the builder or the log substrate failed.
    ExternalToolFailure,
}

/// The class of a failure; each class has one exit status.
#[derive(Clone, Copy, Debug, PartialEq, Eq, Structural)]
pub enum ErrorCategory {
    Validation,
    Conflict,
    NotFound,
    ExternalTool,
}

/// Exit status of a command that succeeded.
pub const EXIT_SUCCESS: u8 = 0;

impl ErrorKind {
    /// The class each kind belongs to.
    pub open spec fn spec_category(self) -> ErrorCategory {
        match self {
            ErrorKind::ValidationError => ErrorCategory::Validation,
            ErrorKind::ConcurrentModification => ErrorCategory::Conflict,
            ErrorKind::DivergedHistory => ErrorCategory::Conflict,
            ErrorKind::UnknownGeneration => ErrorCategory::NotFound,
            ErrorKind::NoPreviousGeneration => ErrorCategory::NotFound,
            ErrorKind::NothingToWipe => ErrorCategory::NotFound,
            ErrorKind::ExternalToolFailure => ErrorCategory::ExternalTool,
        }
    }

    #[verifier::when_used_as_spec(spec_category)]
    pub fn category(self) -> (category: ErrorCategory)
        ensures
            category == self.spec_category(),
    {
        match self {
            ErrorKind::ValidationError => ErrorCategory::Validation,
            ErrorKind::ConcurrentModification => ErrorCategory::Conflict,
            ErrorKind::DivergedHistory => ErrorCategory::Conflict,
            ErrorKind::UnknownGeneration => ErrorCategory::NotFound,
            ErrorKind::NoPreviousGeneration => ErrorCategory::NotFound,
            ErrorKind::NothingToWipe => ErrorCategory::NotFound,
            ErrorKind::ExternalToolFailure => ErrorCategory::ExternalTool,
        }
    }

    /// Whether trying the same operation again can succeed without any
    /// change to its input.
    pub fn is_retryable(self) -> (retryable: bool)
        ensures
            retryable == (self == ErrorKind::ConcurrentModification),
    {
        match self {
            ErrorKind::ConcurrentModification => true,
            _ => false,
        }
    }

    /// Exit status reported for this kind: that of its class.
    pub fn exit_code(self) -> (code: u8)
        ensures
            code == self.category().spec_exit_code(),
    {
        self.category().exit_code()
    }
}

impl ErrorCategory {
    /// Validation is 2, conflict 3, not-found 4, external-tool failure 5.
    pub open spec fn spec_exit_code(self) -> u8 {
        match self {
            ErrorCategory::Validation => 2,
            ErrorCategory::Conflict => 3,
            ErrorCategory::NotFound => 4,
            ErrorCategory::ExternalTool => 5,
        }
    }

    #[verifier::when_used_as_spec(spec_exit_code)]
    pub fn exit_code(self) -> (code: u8)
        ensures
            code == self.spec_exit_code(),
            code != EXIT_SUCCESS,
    {
        match self {
            ErrorCategory::Validation => 2,
            ErrorCategory::Conflict => 3,
            ErrorCategory::NotFound => 4,
            ErrorCategory::ExternalTool => 5,
        }
    }
}

/// Two failures report the same exit status exactly when they are of the
/// same class, and no failure reports the status of success.
pub proof fn exit_codes_follow_categories(a: ErrorKind, b: ErrorKind)
    ensures
        (a.category().exit_code() == b.category().exit_code()) <==> a.category() == b.category(),
        a.category().exit_code() != EXIT_SUCCESS,
{
}

} // verus!
