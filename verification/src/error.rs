//! The error taxonomy shared by every operation of the player.
use vstd::prelude::*;
use vstd::string::*;

verus! {

/// Which family an error belongs to.
#[derive(Debug, Clone, Copy, PartialEq, Eq, Structural)]
pub enum ErrorKind {
    Audio,
    Database,
    Scanner,
    Io,
    Decode,
    NotFound,
    InvalidState,
    Validation,
}

/// An error together with its human-readable detail.
#[derive(Debug)]
pub enum AppError {
    /// Device- or stream-level failure.
    Audio(String),
    Database(String),
    Scanner(String),
    Io(String),
    /// Malformed or unsupported audio data.
    Decode(String),
    /// A file or a device is missing.
    NotFound(String),
    /// The operation makes no sense in the player's current state.
    InvalidState(String),
    /// A value handed in by the user was rejected.
    Validation(String),
}

pub type AppResult<T> = Result<T, AppError>;

/// The heading that precedes the detail of an error of the given kind.
pub open spec fn heading(kind: ErrorKind) -> Seq<char> {
    match kind {
        ErrorKind::Audio => "Audio error: "@,
        ErrorKind::Database => "Database error: "@,
        ErrorKind::Scanner => "Scanner error: "@,
        ErrorKind::Io => "IO error: "@,
        ErrorKind::Decode => "Decode error: "@,
        ErrorKind::NotFound => "Not found: "@,
        ErrorKind::InvalidState => "Invalid state: "@,
        ErrorKind::Validation => "Validation error: "@,
    }
}

impl AppError {
    /// The family of this error.
    pub open spec fn spec_kind(&self) -> ErrorKind {
        match self {
            AppError::Audio(_) => ErrorKind::Audio,
            AppError::Database(_) => ErrorKind::Database,
            AppError::Scanner(_) => ErrorKind::Scanner,
            AppError::Io(_) => ErrorKind::Io,
            AppError::Decode(_) => ErrorKind::Decode,
            AppError::NotFound(_) => ErrorKind::NotFound,
            AppError::InvalidState(_) => ErrorKind::InvalidState,
            AppError::Validation(_) => ErrorKind::Validation,
        }
    }

    /// The detail text carried by this error.
    pub open spec fn detail(&self) -> Seq<char> {
        match self {
            AppError::Audio(m) => m@,
            AppError::Database(m) => m@,
            AppError::Scanner(m) => m@,
            AppError::Io(m) => m@,
            AppError::Decode(m) => m@,
            AppError::NotFound(m) => m@,
            AppError::InvalidState(m) => m@,
            AppError::Validation(m) => m@,
        }
    }

    /// What `message` renders: the heading of the kind, then the detail.
    pub open spec fn rendered(&self) -> Seq<char> {
        heading(self.spec_kind()) + self.detail()
    }

    #[verifier::when_used_as_spec(spec_kind)]
    pub fn kind(&self) -> (k: ErrorKind)
        ensures
            k == self.spec_kind(),
    {
        match self {
            AppError::Audio(_) => ErrorKind::Audio,
            AppError::Database(_) => ErrorKind::Database,
            AppError::Scanner(_) => ErrorKind::Scanner,
            AppError::Io(_) => ErrorKind::Io,
            AppError::Decode(_) => ErrorKind::Decode,
            AppError::NotFound(_) => ErrorKind::NotFound,
            AppError::InvalidState(_) => ErrorKind::InvalidState,
            AppError::Validation(_) => ErrorKind::Validation,
        }
    }

    /// Builds the error of the given kind that carries `detail`.
    pub fn of_kind(kind: ErrorKind, detail: String) -> (e: AppError)
        ensures
            e.spec_kind() == kind,
            e.detail() == detail@,
    {
        match kind {
            ErrorKind::Audio => AppError::Audio(detail),
            ErrorKind::Database => AppError::Database(detail),
            ErrorKind::Scanner => AppError::Scanner(detail),
            ErrorKind::Io => AppError::Io(detail),
            ErrorKind::Decode => AppError::Decode(detail),
            ErrorKind::NotFound => AppError::NotFound(detail),
            ErrorKind::InvalidState => AppError::InvalidState(detail),
            ErrorKind::Validation => AppError::Validation(detail),
        }
    }

    /// The text shown to the user.
    pub fn message(&self) -> (s: String)
        ensures
            s@ == self.rendered(),
    {
        match self {
            AppError::Audio(m) => String::from_str("Audio error: ").concat(m.as_str()),
            AppError::Database(m) => String::from_str("Database error: ").concat(m.as_str()),
            AppError::Scanner(m) => String::from_str("Scanner error: ").concat(m.as_str()),
            AppError::Io(m) => String::from_str("IO error: ").concat(m.as_str()),
            AppError::Decode(m) => String::from_str("Decode error: ").concat(m.as_str()),
            AppError::NotFound(m) => String::from_str("Not found: ").concat(m.as_str()),
            AppError::InvalidState(m) => String::from_str("Invalid state: ").concat(m.as_str()),
            AppError::Validation(m) => String::from_str("Validation error: ").concat(m.as_str()),
        }
    }
}

impl AppError {
    /// The detail of this error once `context` has been put before it: the
    /// context, a colon, and the rendered error. An `Io` error keeps its
    /// detail.
    pub open spec fn detail_in(&self, context: Seq<char>) -> Seq<char> {
        if self.spec_kind() == ErrorKind::Io {
            self.detail()
        } else {
            context + ": "@ + self.rendered()
        }
    }

    /// Says in what the error happened, keeping its kind.
    pub fn in_context(self, context: &str) -> (error: AppError)
        ensures
            error.spec_kind() == self.spec_kind(),
            error.detail() == self.detail_in(context@),
    {
        let kind: ErrorKind = self.kind();
        match self {
            AppError::Io(detail) => AppError::Io(detail),
            other => {
                let rendered: String = other.message();
                let detail: String = String::from_str(context).concat(": ").concat(
                    rendered.as_str(),
                );
                AppError::of_kind(kind, detail)
            },
        }
    }
}

/// Adds context to the error of a result.
pub trait ErrorContext<T>: Sized {
    /// What `context` returns for `self` and the text `context`.
    spec fn in_context(self, context: Seq<char>, result: AppResult<T>) -> bool;

    fn context(self, context: &str) -> (result: AppResult<T>)
        ensures
            self.in_context(context@, result),
    ;
}

impl<T> ErrorContext<T> for Result<T, AppError> {
    /// A value passes unchanged; an error keeps its kind and gets the
    /// context put before its detail.
    open spec fn in_context(self, context: Seq<char>, result: AppResult<T>) -> bool {
        match self {
            Ok(value) => result == Ok::<T, AppError>(value),
            Err(error) => result is Err && result->Err_0.spec_kind() == error.spec_kind()
                && result->Err_0.detail() == error.detail_in(context),
        }
    }

    fn context(self, context: &str) -> (result: AppResult<T>) {
        match self {
            Ok(value) => Ok(value),
            Err(error) => Err(error.in_context(context)),
        }
    }
}

} // verus!
