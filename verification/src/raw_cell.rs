//! Raw cells: storage for one value that starts empty and is initialized once.
//!
//! These are the single-owner cells of the library. A caller that holds a
//! raw cell by `&mut` is the only one that can touch it, so the
//! initialization protocol of [`crate::state`] reduces here to "produce the
//! value if none is stored". Cells shared between threads need the full
//! protocol, whose rounds [`crate::gate::InitGate`] runs on an atomic word.
use vstd::prelude::*;
use std::mem::ManuallyDrop;
use std::ops::Deref;
use crate::traits::CellTrait;

verus! {
/// The raw cell that readers and writers share through a read-write lock.
pub struct RawCell<T> {
    value: Option<T>,
}

impl<T> View for RawCell<T> {
    type V = Option<T>;

    /// `None` while the cell is not initialized, else its value.
    closed spec fn view(&self) -> Option<T> {
        self.value
    }
}

impl<T> RawCell<T> {
    /// An empty cell.
    pub fn new() -> (cell: Self)
        ensures
            cell@ is None,
    {
        Self { value: None }
    }

    /// A cell initialized at once with `T::default()`.
    pub fn default() -> (cell: Self)
        where
            T: Default,
        ensures
            cell@ matches Some(v) && call_ensures(T::default, (), v),
    {
        Self { value: Some(T::default()) }
    }

    /// Whether the cell holds its value.
    pub fn is_initialized(&self) -> (inited: bool)
        ensures
            inited == self@ is Some,
    {
        self.value.is_some()
    }

    /// Stores what `init_fn` returns, if the cell is empty; an initialized
    /// cell is left as it is and `init_fn` is not called.
    pub fn init<F: FnOnce() -> T>(&mut self, init_fn: F)
        requires
            old(self)@ is None ==> call_requires(init_fn, ()),
        ensures
            old(self)@ is Some ==> final(self)@ == old(self)@,
            old(self)@ is None ==> (final(self)@ matches Some(v) && call_ensures(init_fn, (), v)),
    {
        if self.value.is_none() {
            let value = init_fn();
            self.value = Some(value);
        }
    }

    /// The value; the cell must be initialized.
    pub fn inner(&self) -> (value: &T)
        requires
            self@ is Some,
        ensures
            *value == self@.unwrap(),
    {
        match &self.value {
            Some(value) => value,
            None => vstd::pervasive::unreached(),
        }
    }

    /// The value, to change in place; the cell must be initialized.
    pub fn inner_mut(&mut self) -> (value: &mut T)
        requires
            old(self)@ is Some,
        ensures
            *value == old(self)@.unwrap(),
            final(self)@ == Some(*final(value)),
    {
        match &mut self.value {
            Some(value) => value,
            None => vstd::pervasive::unreached(),
        }
    }

    /// Read access to the value; the cell must be initialized.
    pub fn read(&self) -> (value: &T)
        requires
            self@ is Some,
        ensures
            *value == self@.unwrap(),
    {
        match &self.value {
            Some(value) => value,
            None => vstd::pervasive::unreached(),
        }
    }

    /// Write access to the value; the cell must be initialized.
    pub fn write(&mut self) -> (value: &mut T)
        requires
            old(self)@ is Some,
        ensures
            *value == old(self)@.unwrap(),
            final(self)@ == Some(*final(value)),
    {
        match &mut self.value {
            Some(value) => value,
            None => vstd::pervasive::unreached(),
        }
    }

}

/// The raw cell that all accesses share through one mutual-exclusion lock.
pub struct RawMutexCell<T> {
    value: Option<T>,
}

impl<T> View for RawMutexCell<T> {
    type V = Option<T>;

    /// `None` while the cell is not initialized, else its value.
    closed spec fn view(&self) -> Option<T> {
        self.value
    }
}

impl<T> RawMutexCell<T> {
    /// An empty cell.
    pub fn new() -> (cell: Self)
        ensures
            cell@ is None,
    {
        Self { value: None }
    }

    /// A cell initialized at once with `T::default()`.
    pub fn default() -> (cell: Self)
        where
            T: Default,
        ensures
            cell@ matches Some(v) && call_ensures(T::default, (), v),
    {
        Self { value: Some(T::default()) }
    }

    /// Whether the cell holds its value.
    pub fn is_initialized(&self) -> (inited: bool)
        ensures
            inited == self@ is Some,
    {
        self.value.is_some()
    }

    /// Stores what `init_fn` returns, if the cell is empty; an initialized
    /// cell is left as it is and `init_fn` is not called.
    pub fn init<F: FnOnce() -> T>(&mut self, init_fn: F)
        requires
            old(self)@ is None ==> call_requires(init_fn, ()),
        ensures
            old(self)@ is Some ==> final(self)@ == old(self)@,
            old(self)@ is None ==> (final(self)@ matches Some(v) && call_ensures(init_fn, (), v)),
    {
        if self.value.is_none() {
            let value = init_fn();
            self.value = Some(value);
        }
    }

    /// The value; the cell must be initialized.
    pub fn inner(&self) -> (value: &T)
        requires
            self@ is Some,
        ensures
            *value == self@.unwrap(),
    {
        match &self.value {
            Some(value) => value,
            None => vstd::pervasive::unreached(),
        }
    }

    /// The value, to change in place; the cell must be initialized.
    pub fn inner_mut(&mut self) -> (value: &mut T)
        requires
            old(self)@ is Some,
        ensures
            *value == old(self)@.unwrap(),
            final(self)@ == Some(*final(value)),
    {
        match &mut self.value {
            Some(value) => value,
            None => vstd::pervasive::unreached(),
        }
    }

}

/// The raw cell for a value that is set once and then only read. Once
/// stored, the value is never dropped, not even with the cell.
pub struct RawOnceCell<T> {
    value: Option<ManuallyDrop<T>>,
}

impl<T> View for RawOnceCell<T> {
    type V = Option<T>;

    /// `None` while the cell is not initialized, else its value.
    closed spec fn view(&self) -> Option<T> {
        match self.value {
            Some(kept) => Some(kept@),
            None => None,
        }
    }
}

impl<T> RawOnceCell<T> {
    /// An empty cell.
    pub fn new() -> (cell: Self)
        ensures
            cell@ is None,
    {
        Self { value: None }
    }

    /// Whether the cell holds its value.
    pub fn is_initialized(&self) -> (inited: bool)
        ensures
            inited == self@ is Some,
    {
        self.value.is_some()
    }

    /// Stores what `init_fn` returns, if the cell is empty; an initialized
    /// cell is left as it is and `init_fn` is not called.
    pub fn init<F: FnOnce() -> T>(&mut self, init_fn: F)
        requires
            old(self)@ is None ==> call_requires(init_fn, ()),
        ensures
            old(self)@ is Some ==> final(self)@ == old(self)@,
            old(self)@ is None ==> (final(self)@ matches Some(v) && call_ensures(init_fn, (), v)),
    {
        if self.value.is_none() {
            let value = init_fn();
            self.value = Some(ManuallyDrop::new(value));
        }
    }

    /// The value, produced first by `init_fn` if the cell is empty.
    pub fn get_or_init<F: FnOnce() -> T>(&mut self, init_fn: F) -> (value: &T)
        requires
            old(self)@ is None ==> call_requires(init_fn, ()),
        ensures
            old(self)@ is Some ==> final(self)@ == old(self)@,
            old(self)@ is None ==> (final(self)@ matches Some(v) && call_ensures(init_fn, (), v)),
            *value == final(self)@.unwrap(),
    {
        if self.value.is_none() {
            self.init(init_fn);
        }
        self.inner()
    }

    /// The value; the cell must be initialized.
    pub fn inner(&self) -> (value: &T)
        requires
            self@ is Some,
        ensures
            *value == self@.unwrap(),
    {
        match &self.value {
            Some(kept) => kept.deref(),
            None => vstd::pervasive::unreached(),
        }
    }
}

/// The raw cell with direct access to its value, for a single thread.
pub struct RawDirectCell<T> {
    value: Option<T>,
}

impl<T> View for RawDirectCell<T> {
    type V = Option<T>;

    /// `None` while the cell is not initialized, else its value.
    closed spec fn view(&self) -> Option<T> {
        self.value
    }
}

impl<T> RawDirectCell<T> {
    /// An empty cell.
    pub fn new() -> (cell: Self)
        ensures
            cell@ is None,
    {
        Self { value: None }
    }

    /// Stores what `init_fn` returns, if the cell is empty; an initialized
    /// cell is left as it is and `init_fn` is not called.
    pub fn init<F: FnOnce() -> T>(&mut self, init_fn: F)
        requires
            old(self)@ is None ==> call_requires(init_fn, ()),
        ensures
            old(self)@ is Some ==> final(self)@ == old(self)@,
            old(self)@ is None ==> (final(self)@ matches Some(v) && call_ensures(init_fn, (), v)),
    {
        if self.value.is_none() {
            let value = init_fn();
            self.value = Some(value);
        }
    }

    /// Whether the cell holds its value.
    pub fn is_initialized(&self) -> (inited: bool)
        ensures
            inited == self@ is Some,
    {
        self.value.is_some()
    }

    /// The value, produced first by `init_fn` if the cell is empty.
    pub fn get_or_init<F: FnOnce() -> T>(&mut self, init_fn: F) -> (value: &T)
        requires
            old(self)@ is None ==> call_requires(init_fn, ()),
        ensures
            old(self)@ is Some ==> final(self)@ == old(self)@,
            old(self)@ is None ==> (final(self)@ matches Some(v) && call_ensures(init_fn, (), v)),
            *value == final(self)@.unwrap(),
    {
        if self.value.is_none() {
            self.init(init_fn);
        }
        self.inner()
    }

    /// The value; the cell must be initialized.
    pub fn inner(&self) -> (value: &T)
        requires
            self@ is Some,
        ensures
            *value == self@.unwrap(),
    {
        match &self.value {
            Some(value) => value,
            None => vstd::pervasive::unreached(),
        }
    }

    /// The value, to change in place; the cell must be initialized.
    pub fn inner_mut(&mut self) -> (value: &mut T)
        requires
            old(self)@ is Some,
        ensures
            *value == old(self)@.unwrap(),
            final(self)@ == Some(*final(value)),
    {
        match &mut self.value {
            Some(value) => value,
            None => vstd::pervasive::unreached(),
        }
    }

}

/// A raw cell whose value is an `Option`, so that it can be empty even
/// once initialized.
pub struct RawOptionCell<T> {
    value: Option<Option<T>>,
}

impl<T> View for RawOptionCell<T> {
    type V = Option<Option<T>>;

    /// `None` while the cell is not initialized, else its value.
    closed spec fn view(&self) -> Option<Option<T>> {
        self.value
    }
}

impl<T> RawOptionCell<T> {
    /// An empty cell.
    pub fn new() -> (cell: Self)
        ensures
            cell@ is None,
    {
        Self { value: None }
    }

    /// Stores what `init_fn` returns, if the cell is empty; an initialized
    /// cell is left as it is and `init_fn` is not called.
    pub fn init<F: FnOnce() -> Option<T>>(&mut self, init_fn: F)
        requires
            old(self)@ is None ==> call_requires(init_fn, ()),
        ensures
            old(self)@ is Some ==> final(self)@ == old(self)@,
            old(self)@ is None ==> (final(self)@ matches Some(v) && call_ensures(init_fn, (), v)),
    {
        if self.value.is_none() {
            let value = init_fn();
            self.value = Some(value);
        }
    }

    /// Read access to the option; the cell must be initialized.
    pub fn read(&self) -> (value: &Option<T>)
        requires
            self@ is Some,
        ensures
            *value == self@.unwrap(),
    {
        match &self.value {
            Some(value) => value,
            None => vstd::pervasive::unreached(),
        }
    }

    /// Write access to the option; the cell must be initialized.
    pub fn write(&mut self) -> (value: &mut Option<T>)
        requires
            old(self)@ is Some,
        ensures
            *value == old(self)@.unwrap(),
            final(self)@ == Some(*final(value)),
    {
        match &mut self.value {
            Some(value) => value,
            None => vstd::pervasive::unreached(),
        }
    }

}

impl<T> CellTrait<T> for RawCell<T> {
    open spec fn spec_contents(&self) -> Option<T> {
        self@
    }

    fn new() -> (cell: Self) {
        RawCell { value: None }
    }
}

impl<T> CellTrait<T> for RawMutexCell<T> {
    open spec fn spec_contents(&self) -> Option<T> {
        self@
    }

    fn new() -> (cell: Self) {
        RawMutexCell { value: None }
    }
}

impl<T> CellTrait<T> for RawOnceCell<T> {
    open spec fn spec_contents(&self) -> Option<T> {
        self@
    }

    fn new() -> (cell: Self) {
        RawOnceCell { value: None }
    }
}

impl<T> CellTrait<T> for RawDirectCell<T> {
    open spec fn spec_contents(&self) -> Option<T> {
        self@
    }

    fn new() -> (cell: Self) {
        RawDirectCell { value: None }
    }
}

impl<T> CellTrait<Option<T>> for RawOptionCell<T> {
    open spec fn spec_contents(&self) -> Option<Option<T>> {
        self@
    }

    fn new() -> (cell: Self) {
        RawOptionCell { value: None }
    }
}

} // verus!
