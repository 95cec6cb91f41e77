//! Behaviour shared by the cells of the library.
use vstd::prelude::*;
use crate::model;

verus! {

/// A cell-like structure that contains a value.
pub trait CellTrait<T>: Sized {
    /// The contents of the cell: `None` while it is not initialized, else its value.
    spec fn spec_contents(&self) -> Option<T>;

    /// Creates a new, uninitialized cell.
    fn new() -> (cell: Self)
        ensures
            cell.spec_contents() is None,
    ;
}

/// A cell that manages the initialization and the validity of its value.
pub trait ManagedCell<T>: CellTrait<T> {
    /// Initializes the cell with `value` unless it is initialized already; the
    /// first value stays.
    fn init(&mut self, value: T)
        ensures
            final(self).spec_contents() == model::after_init(old(self).spec_contents(), value),
    ;

    /// Whether the cell is initialized.
    fn is_initialized(&self) -> (inited: bool)
        ensures
            inited == self.spec_contents() is Some,
    ;
}

} // verus!
