//! The errors of the library and their messages.
use vstd::prelude::*;

verus! {

/// Errors about the state of a cell.
#[derive(PartialEq, Eq, Structural, Clone, Copy, Debug)]
pub enum CellError {
    NotSet,
    AlreadySet,
    LockUnavailable,
    AlreadyInitialized,
    Initializing,
    InitializerBeingSet,
    Uninitialized,
}

impl CellError {
    pub open spec fn spec_message(self) -> Seq<char> {
        match self {
            CellError::NotSet => "Cell is not set"@,
            CellError::AlreadySet => "Cell is already set"@,
            CellError::LockUnavailable => "Cell lock is unavailable"@,
            CellError::AlreadyInitialized => "Cell is already initialized"@,
            CellError::Initializing => "Cell is currently initializing"@,
            CellError::InitializerBeingSet => "Cell initializer is being set"@,
            CellError::Uninitialized => "Cell is uninitialized"@,
        }
    }

    /// The text that describes the error.
    pub fn message(&self) -> (message: &'static str)
        ensures
            message@ == self.spec_message(),
    {
        match self {
            CellError::NotSet => "Cell is not set",
            CellError::AlreadySet => "Cell is already set",
            CellError::LockUnavailable => "Cell lock is unavailable",
            CellError::AlreadyInitialized => "Cell is already initialized",
            CellError::Initializing => "Cell is currently initializing",
            CellError::InitializerBeingSet => "Cell initializer is being set",
            CellError::Uninitialized => "Cell is uninitialized",
        }
    }
}

/// The managed cell that a failure is reported for.
#[derive(PartialEq, Eq, Structural, Clone, Copy, Debug)]
pub enum CellKind {
    Cell,
    MutexCell,
    OnceCell,
}

/// Why an attempt to initialize a managed cell failed.
#[derive(PartialEq, Eq, Structural, Clone, Copy, Debug)]
pub enum InitFailure {
    /// A blocking initialization found no initializer.
    NoInitFn,
    /// An asynchronous initialization found no initializer.
    NoAsyncInitFn,
    /// The blocking initializer panicked.
    InitFnPanicked,
    /// The asynchronous initializer panicked.
    AsyncInitFnPanicked,
}

pub open spec fn spec_failure_message(kind: CellKind, failure: InitFailure) -> Seq<char> {
    match kind {
        CellKind::Cell => match failure {
            InitFailure::NoInitFn => "Cell has no init function"@,
            InitFailure::NoAsyncInitFn => "Cell has no async init function"@,
            InitFailure::InitFnPanicked => "Cell init function panicked"@,
            InitFailure::AsyncInitFnPanicked => "Cell async init function panicked"@,
        },
        CellKind::MutexCell => match failure {
            InitFailure::NoInitFn => "MutexCell has no init function"@,
            InitFailure::NoAsyncInitFn => "MutexCell has no async init function"@,
            InitFailure::InitFnPanicked => "MutexCell init function panicked"@,
            InitFailure::AsyncInitFnPanicked => "MutexCell async init function panicked"@,
        },
        CellKind::OnceCell => match failure {
            InitFailure::NoInitFn => "OnceCell has no init function"@,
            InitFailure::NoAsyncInitFn => "OnceCell has no async init function"@,
            InitFailure::InitFnPanicked => "OnceCell init function panicked"@,
            InitFailure::AsyncInitFnPanicked => "OnceCell async init function panicked"@,
        },
    }
}

/// The error text that an attempt to initialize a cell of kind `kind` returns
/// when it fails for `failure`.
pub fn failure_message(kind: CellKind, failure: InitFailure) -> (message: &'static str)
    ensures
        message@ == spec_failure_message(kind, failure),
{
    match kind {
        CellKind::Cell => match failure {
            InitFailure::NoInitFn => "Cell has no init function",
            InitFailure::NoAsyncInitFn => "Cell has no async init function",
            InitFailure::InitFnPanicked => "Cell init function panicked",
            InitFailure::AsyncInitFnPanicked => "Cell async init function panicked",
        },
        CellKind::MutexCell => match failure {
            InitFailure::NoInitFn => "MutexCell has no init function",
            InitFailure::NoAsyncInitFn => "MutexCell has no async init function",
            InitFailure::InitFnPanicked => "MutexCell init function panicked",
            InitFailure::AsyncInitFnPanicked => "MutexCell async init function panicked",
        },
        CellKind::OnceCell => match failure {
            InitFailure::NoInitFn => "OnceCell has no init function",
            InitFailure::NoAsyncInitFn => "OnceCell has no async init function",
            InitFailure::InitFnPanicked => "OnceCell init function panicked",
            InitFailure::AsyncInitFnPanicked => "OnceCell async init function panicked",
        },
    }
}

} // verus!
