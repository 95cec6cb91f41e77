use global_cell::error::{failure_message, CellError, CellKind, InitFailure};

#[test]
fn cell_error_messages() {
    assert_eq!(CellError::NotSet.message(), "Cell is not set");
    assert_eq!(CellError::AlreadySet.message(), "Cell is already set");
    assert_eq!(CellError::LockUnavailable.message(), "Cell lock is unavailable");
    assert_eq!(CellError::AlreadyInitialized.message(), "Cell is already initialized");
    assert_eq!(CellError::Initializing.message(), "Cell is currently initializing");
    assert_eq!(CellError::InitializerBeingSet.message(), "Cell initializer is being set");
    assert_eq!(CellError::Uninitialized.message(), "Cell is uninitialized");
}

#[test]
fn failure_messages() {
    assert_eq!(failure_message(CellKind::Cell, InitFailure::NoInitFn), "Cell has no init function");
    assert_eq!(
        failure_message(CellKind::Cell, InitFailure::InitFnPanicked),
        "Cell init function panicked"
    );
    assert_eq!(
        failure_message(CellKind::Cell, InitFailure::AsyncInitFnPanicked),
        "Cell async init function panicked"
    );
    assert_eq!(
        failure_message(CellKind::MutexCell, InitFailure::NoAsyncInitFn),
        "MutexCell has no async init function"
    );
    assert_eq!(
        failure_message(CellKind::MutexCell, InitFailure::InitFnPanicked),
        "MutexCell init function panicked"
    );
    assert_eq!(
        failure_message(CellKind::OnceCell, InitFailure::AsyncInitFnPanicked),
        "OnceCell async init function panicked"
    );
    assert_eq!(
        failure_message(CellKind::OnceCell, InitFailure::NoInitFn),
        "OnceCell has no init function"
    );
}
