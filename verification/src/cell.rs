//! Managed cells: a raw cell together with the initializers that fill it
//! when its value is first needed.
use vstd::prelude::*;
use crate::error::{failure_message, CellKind, InitFailure};
use crate::error;
use crate::init::{DefaultInit, FnInit, Initializer, NoInit};
use crate::model;
use crate::raw_cell::{RawCell, RawMutexCell, RawOnceCell};
use crate::traits::{CellTrait, ManagedCell};

verus! {

/// A cell whose value readers and writers share.
pub struct Cell<T, I = NoInit<T>> {
    raw: RawCell<T>,
    init_fn: Option<I>,
    init_async_fn: Option<I>,
}

impl<T, I> View for Cell<T, I> {
    type V = Option<T>;

    /// `None` while the cell is not initialized, else its value.
    closed spec fn view(&self) -> Option<T> {
        self.raw@
    }
}

impl<T, I> Cell<T, I> {
    /// The blocking initializer the cell was built with.
    pub closed spec fn spec_init_fn(&self) -> Option<I> {
        self.init_fn
    }

    /// The asynchronous initializer the cell was built with.
    pub closed spec fn spec_init_async_fn(&self) -> Option<I> {
        self.init_async_fn
    }

    /// The initializer that [`Cell::try_init`] calls.
    pub open spec fn spec_chosen(&self) -> Option<I> {
        model::chosen(self.spec_init_fn(), self.spec_init_async_fn())
    }

    /// The initializer that [`Cell::try_init_async`] calls.
    pub open spec fn spec_chosen_async(&self) -> Option<I> {
        model::chosen_async(self.spec_init_fn(), self.spec_init_async_fn())
    }

    /// Whether `other` holds the same initializers.
    pub open spec fn same_initializers(&self, other: &Self) -> bool {
        &&& other.spec_init_fn() == self.spec_init_fn()
        &&& other.spec_init_async_fn() == self.spec_init_async_fn()
    }
}

impl<T> Cell<T, NoInit<T>> {
    /// An empty cell without initializers.
    pub fn new() -> (cell: Self)
        ensures
            cell@ is None,
            cell.spec_init_fn() is None,
            cell.spec_init_async_fn() is None,
    {
        Cell { raw: RawCell::new(), init_fn: None, init_async_fn: None }
    }

    /// A cell initialized with `value`, without initializers.
    pub fn from(value: T) -> (cell: Self)
        ensures
            cell@ == Some(value),
            cell.spec_init_fn() is None,
            cell.spec_init_async_fn() is None,
    {
        let mut raw = RawCell::new();
        raw.init(move || -> (r: T)
            ensures
                r == value,
            { value });
        Cell { raw, init_fn: None, init_async_fn: None }
    }
}

impl<T, F: Fn() -> T> Cell<T, FnInit<F>> {
    /// An empty cell that calls `init_fn` when its value is first needed.
    pub fn with_fn(init_fn: F) -> (cell: Self)
        ensures
            cell@ is None,
            cell.spec_init_fn() == Some(FnInit { f: init_fn }),
            cell.spec_init_async_fn() is None,
    {
        Cell { raw: RawCell::new(), init_fn: Some(FnInit { f: init_fn }), init_async_fn: None }
    }

    /// An empty cell whose value is produced by the asynchronous initializer
    /// that `init_async_fn` runs to completion.
    pub fn with_async_fn(init_async_fn: F) -> (cell: Self)
        ensures
            cell@ is None,
            cell.spec_init_fn() is None,
            cell.spec_init_async_fn() == Some(FnInit { f: init_async_fn }),
    {
        Cell { raw: RawCell::new(), init_fn: None, init_async_fn: Some(FnInit { f: init_async_fn }) }
    }
}

impl<T: Default> Cell<T, DefaultInit<T>> {
    /// An empty cell that stores `T::default()` when its value is first needed.
    pub fn default() -> (cell: Self)
        ensures
            cell@ is None,
            cell.spec_init_fn() is Some,
            cell.spec_init_async_fn() is None,
    {
        Cell { raw: RawCell::new(), init_fn: Some(DefaultInit::new()), init_async_fn: None }
    }
}

impl<T, I: Initializer<Value = T>> Cell<T, I> {
    /// Stores `value` if the cell is empty; an initialized cell keeps its value.
    pub fn init(&mut self, value: T)
        ensures
            final(self)@ == model::after_init(old(self)@, value),
            old(self).same_initializers(final(self)),
    {
        self.raw.init(move || -> (r: T)
            ensures
                r == value,
            { value });
    }

    /// Stores `T::default()` if the cell is empty.
    pub fn init_default(&mut self)
        where
            T: Default,
        ensures
            old(self)@ is Some ==> final(self)@ == old(self)@,
            old(self)@ is None ==> (final(self)@ matches Some(v) && call_ensures(T::default, (), v)),
            old(self).same_initializers(final(self)),
    {
        self.raw.init(|| -> (value: T)
            ensures
                call_ensures(T::default, (), value),
            { T::default() });
    }

    /// Stores what `f` returns if the cell is empty; `f` is not called otherwise.
    pub fn init_with<F: FnOnce() -> T>(&mut self, f: F)
        requires
            old(self)@ is None ==> call_requires(f, ()),
        ensures
            old(self)@ is Some ==> final(self)@ == old(self)@,
            old(self)@ is None ==> (final(self)@ matches Some(v) && call_ensures(f, (), v)),
            old(self).same_initializers(final(self)),
    {
        self.raw.init(f);
    }

    /// Whether the cell holds its value.
    pub fn is_initialized(&self) -> (inited: bool)
        ensures
            inited == self@ is Some,
    {
        self.raw.is_initialized()
    }

    /// Whether the cell holds its value; the same as [`Cell::is_initialized`].
    pub fn is_init(&self) -> (inited: bool)
        ensures
            inited == self@ is Some,
    {
        self.raw.is_initialized()
    }

    /// The value, if the cell holds one; nothing is initialized.
    pub fn get(&self) -> (value: Option<&T>)
        ensures
            value is None <==> self@ is None,
            value matches Some(v) ==> self@ == Some(*v),
    {
        if self.raw.is_initialized() {
            Some(self.raw.inner())
        } else {
            None
        }
    }

    /// Whether the cell was built with a blocking initializer.
    pub fn has_init_fn(&self) -> (has: bool)
        ensures
            has == self.spec_init_fn() is Some,
    {
        self.init_fn.is_some()
    }

    /// Whether the cell was built with an asynchronous initializer.
    pub fn has_async_init_fn(&self) -> (has: bool)
        ensures
            has == self.spec_init_async_fn() is Some,
    {
        self.init_async_fn.is_some()
    }

    /// Makes the cell initialized with the blocking initializer, or else the
    /// asynchronous one; fails, changing nothing, when the cell has neither.
    /// An initialized cell keeps its value and no initializer is called.
    pub fn try_init(&mut self) -> (result: Result<(), &'static str>)
        requires
            old(self)@ is None ==> (old(self).spec_chosen() matches Some(i) ==> i.ready()),
        ensures
            result is Ok <==> old(self).spec_chosen() is Some,
            result is Ok ==> model::filled_by(old(self)@, old(self).spec_chosen(), final(self)@),
            result matches Err(message) ==> final(self)@ == old(self)@ && message@
                == error::spec_failure_message(CellKind::Cell, InitFailure::NoInitFn),
            old(self).same_initializers(final(self)),
    {
        match &self.init_fn {
            Some(init_fn) => {
                self.raw.init(|| -> (r: T)
                    requires
                        init_fn.ready(),
                    ensures
                        init_fn.produces(r),
                    { init_fn.call() });
                Ok(())
            },
            None => match &self.init_async_fn {
                Some(init_async_fn) => {
                    self.raw.init(|| -> (r: T)
                        requires
                            init_async_fn.ready(),
                        ensures
                            init_async_fn.produces(r),
                        { init_async_fn.call() });
                    Ok(())
                },
                None => Err(failure_message(CellKind::Cell, InitFailure::NoInitFn)),
            },
        }
    }


    /// Makes the cell initialized with the asynchronous initializer, or else
    /// the blocking one; fails, changing nothing, when the cell has neither.
    /// An initialized cell keeps its value and no initializer is called.
    pub fn try_init_async(&mut self) -> (result: Result<(), &'static str>)
        requires
            old(self)@ is None ==> (old(self).spec_chosen_async() matches Some(i) ==> i.ready()),
        ensures
            result is Ok <==> old(self).spec_chosen_async() is Some,
            result is Ok ==> model::filled_by(
                old(self)@,
                old(self).spec_chosen_async(),
                final(self)@,
            ),
            result matches Err(message) ==> final(self)@ == old(self)@ && message@
                == error::spec_failure_message(CellKind::Cell, InitFailure::NoAsyncInitFn),
            old(self).same_initializers(final(self)),
    {
        match &self.init_async_fn {
            Some(init_async_fn) => {
                self.raw.init(|| -> (r: T)
                    requires
                        init_async_fn.ready(),
                    ensures
                        init_async_fn.produces(r),
                    { init_async_fn.call() });
                Ok(())
            },
            None => match &self.init_fn {
                Some(init_fn) => {
                    self.raw.init(|| -> (r: T)
                        requires
                            init_fn.ready(),
                        ensures
                            init_fn.produces(r),
                        { init_fn.call() });
                    Ok(())
                },
                None => Err(failure_message(CellKind::Cell, InitFailure::NoAsyncInitFn)),
            },
        }
    }
    /// Makes the cell initialized if it is not, as [`Cell::try_init`] does.
    fn fill(&mut self)
        requires
            model::can_fill(old(self)@, old(self).spec_chosen()),
        ensures
            model::filled_by(old(self)@, old(self).spec_chosen(), final(self)@),
            final(self)@ is Some,
            old(self).same_initializers(final(self)),
    {
        if !self.raw.is_initialized() {
            let _ = self.try_init();
        }
    }

    /// Read access to the value, which is produced first if the cell is
    /// empty. The cell must be initialized or have an initializer.
    pub fn read(&mut self) -> (value: &T)
        requires
            model::can_fill(old(self)@, old(self).spec_chosen()),
        ensures
            model::filled_by(old(self)@, old(self).spec_chosen(), final(self)@),
            *value == final(self)@.unwrap(),
            old(self).same_initializers(final(self)),
    {
        self.fill();
        self.raw.read()
    }

    /// Write access to the value, which is produced first if the cell is
    /// empty. The cell must be initialized or have an initializer.
    pub fn write(&mut self) -> (value: &mut T)
        requires
            model::can_fill(old(self)@, old(self).spec_chosen()),
        ensures
            model::filled_by(old(self)@, old(self).spec_chosen(), Some(*value)),
            final(self)@ == Some(*final(value)),
            old(self).same_initializers(final(self)),
    {
        self.fill();
        self.raw.write()
    }

    /// Calls `f` on the value, which is produced first if the cell is empty.
    pub fn with<R, F: FnOnce(&T) -> R>(&mut self, f: F) -> (result: R)
        requires
            model::can_fill(old(self)@, old(self).spec_chosen()),
            forall|v: T|
                model::filled_by(old(self)@, old(self).spec_chosen(), Some(v)) ==> call_requires(
                    f,
                    (&v,),
                ),
        ensures
            model::filled_by(old(self)@, old(self).spec_chosen(), final(self)@),
            call_ensures(f, (&final(self)@.unwrap(),), result),
            old(self).same_initializers(final(self)),
    {
        let value = self.read();
        f(value)
    }

    /// Calls `f` on the value to change it in place; the value is produced
    /// first if the cell is empty.
    pub fn with_mut<R, F: FnOnce(&mut T) -> R>(&mut self, f: F) -> (result: R)
        requires
            model::can_fill(old(self)@, old(self).spec_chosen()),
            forall|v: &mut T|
                model::filled_by(old(self)@, old(self).spec_chosen(), Some(*v)) ==> call_requires(
                    f,
                    (v,),
                ),
        ensures
            exists|v: &mut T|
                model::filled_by(old(self)@, old(self).spec_chosen(), Some(*v)) && final(self)@
                    == Some(*final(v)) && call_ensures(f, (v,), result),
            old(self).same_initializers(final(self)),
    {
        let value = self.write();
        f(value)
    }

    /// A clone of the value, which is produced first if the cell is empty.
    pub fn cloned(&mut self) -> (value: T)
        where
            T: Clone,
        requires
            model::can_fill(old(self)@, old(self).spec_chosen()),
        ensures
            model::filled_by(old(self)@, old(self).spec_chosen(), final(self)@),
            cloned::<T>(final(self)@.unwrap(), value),
            old(self).same_initializers(final(self)),
    {
        let value = self.read();
        value.clone()
    }

    /// A copy of the value, which is produced first if the cell is empty.
    pub fn copy(&mut self) -> (value: T)
        where
            T: Copy,
        requires
            model::can_fill(old(self)@, old(self).spec_chosen()),
        ensures
            model::filled_by(old(self)@, old(self).spec_chosen(), final(self)@),
            value == final(self)@.unwrap(),
            old(self).same_initializers(final(self)),
    {
        let value = self.read();
        *value
    }

    /// Sets or updates the value. An empty cell is initialized with `value`
    /// without calling its initializer; an initialized cell has its value
    /// replaced.
    pub fn set(&mut self, value: T)
        ensures
            final(self)@ == model::after_set(old(self)@, value),
            old(self).same_initializers(final(self)),
    {
        if self.raw.is_initialized() {
            let slot = self.raw.write();
            *slot = value;
        } else {
            self.init(value);
        }
    }
}

impl<T, I: Initializer<Value = Option<T>>> Cell<Option<T>, I> {
    /// Takes the value out of the cell, leaving `None` in its place; the value
    /// is produced first if the cell is empty.
    pub fn take(&mut self) -> (taken: Option<T>)
        requires
            model::can_fill(old(self)@, old(self).spec_chosen()),
        ensures
            model::filled_by(old(self)@, old(self).spec_chosen(), Some(taken)),
            final(self)@ == model::after_take(Some(taken)),
            old(self).same_initializers(final(self)),
    {
        let slot = self.write();
        slot.take()
    }

    /// Empties the value of the cell, which stays initialized; no
    /// initializer is called.
    pub fn clear(&mut self)
        ensures
            final(self)@ == model::after_set(old(self)@, None),
            old(self).same_initializers(final(self)),
    {
        self.set(None);
    }
}

impl<T, I> CellTrait<T> for Cell<T, I> {
    open spec fn spec_contents(&self) -> Option<T> {
        self@
    }

    fn new() -> (cell: Self) {
        Cell { raw: RawCell::new(), init_fn: None, init_async_fn: None }
    }
}

impl<T, I: Initializer<Value = T>> ManagedCell<T> for Cell<T, I> {
    fn init(&mut self, value: T) {
        Cell::init(self, value)
    }

    fn is_initialized(&self) -> (inited: bool) {
        Cell::is_initialized(self)
    }
}

impl<T: Default> Default for Cell<T, DefaultInit<T>> {
    /// A cell with a default value: it stores `T::default()` when its value
    /// is first needed.
    fn default() -> (cell: Self)
        ensures
            cell@ is None,
            cell.spec_init_fn() is Some,
            cell.spec_init_async_fn() is None,
    {
        Cell { raw: RawCell::new(), init_fn: Some(DefaultInit::new()), init_async_fn: None }
    }
}

/// A cell whose value every access locks exclusively.
pub struct MutexCell<T, I = NoInit<T>> {
    raw: RawMutexCell<T>,
    init_fn: Option<I>,
    init_async_fn: Option<I>,
}

impl<T, I> View for MutexCell<T, I> {
    type V = Option<T>;

    /// `None` while the cell is not initialized, else its value.
    closed spec fn view(&self) -> Option<T> {
        self.raw@
    }
}

impl<T, I> MutexCell<T, I> {
    /// The blocking initializer the cell was built with.
    pub closed spec fn spec_init_fn(&self) -> Option<I> {
        self.init_fn
    }

    /// The asynchronous initializer the cell was built with.
    pub closed spec fn spec_init_async_fn(&self) -> Option<I> {
        self.init_async_fn
    }

    /// The initializer that [`MutexCell::try_init`] calls.
    pub open spec fn spec_chosen(&self) -> Option<I> {
        model::chosen(self.spec_init_fn(), self.spec_init_async_fn())
    }

    /// The initializer that [`MutexCell::try_init_async`] calls.
    pub open spec fn spec_chosen_async(&self) -> Option<I> {
        model::chosen_async(self.spec_init_fn(), self.spec_init_async_fn())
    }

    /// Whether `other` holds the same initializers.
    pub open spec fn same_initializers(&self, other: &Self) -> bool {
        &&& other.spec_init_fn() == self.spec_init_fn()
        &&& other.spec_init_async_fn() == self.spec_init_async_fn()
    }
}

impl<T> MutexCell<T, NoInit<T>> {
    /// An empty cell without initializers.
    pub fn new() -> (cell: Self)
        ensures
            cell@ is None,
            cell.spec_init_fn() is None,
            cell.spec_init_async_fn() is None,
    {
        MutexCell { raw: RawMutexCell::new(), init_fn: None, init_async_fn: None }
    }

    /// A cell initialized with `value`, without initializers.
    pub fn from(value: T) -> (cell: Self)
        ensures
            cell@ == Some(value),
            cell.spec_init_fn() is None,
            cell.spec_init_async_fn() is None,
    {
        let mut raw = RawMutexCell::new();
        raw.init(move || -> (r: T)
            ensures
                r == value,
            { value });
        MutexCell { raw, init_fn: None, init_async_fn: None }
    }
}

impl<T, F: Fn() -> T> MutexCell<T, FnInit<F>> {
    /// An empty cell that calls `init_fn` when its value is first needed.
    pub fn with_fn(init_fn: F) -> (cell: Self)
        ensures
            cell@ is None,
            cell.spec_init_fn() == Some(FnInit { f: init_fn }),
            cell.spec_init_async_fn() is None,
    {
        MutexCell { raw: RawMutexCell::new(), init_fn: Some(FnInit { f: init_fn }), init_async_fn: None }
    }

    /// An empty cell whose value is produced by the asynchronous initializer
    /// that `init_async_fn` runs to completion.
    pub fn with_async_fn(init_async_fn: F) -> (cell: Self)
        ensures
            cell@ is None,
            cell.spec_init_fn() is None,
            cell.spec_init_async_fn() == Some(FnInit { f: init_async_fn }),
    {
        MutexCell { raw: RawMutexCell::new(), init_fn: None, init_async_fn: Some(FnInit { f: init_async_fn }) }
    }
}

impl<T: Default> MutexCell<T, DefaultInit<T>> {
    /// An empty cell that stores `T::default()` when its value is first needed.
    pub fn default() -> (cell: Self)
        ensures
            cell@ is None,
            cell.spec_init_fn() is Some,
            cell.spec_init_async_fn() is None,
    {
        MutexCell { raw: RawMutexCell::new(), init_fn: Some(DefaultInit::new()), init_async_fn: None }
    }
}

impl<T, I: Initializer<Value = T>> MutexCell<T, I> {
    /// Stores `value` if the cell is empty; an initialized cell keeps its value.
    pub fn init(&mut self, value: T)
        ensures
            final(self)@ == model::after_init(old(self)@, value),
            old(self).same_initializers(final(self)),
    {
        self.raw.init(move || -> (r: T)
            ensures
                r == value,
            { value });
    }

    /// Stores `T::default()` if the cell is empty.
    pub fn init_default(&mut self)
        where
            T: Default,
        ensures
            old(self)@ is Some ==> final(self)@ == old(self)@,
            old(self)@ is None ==> (final(self)@ matches Some(v) && call_ensures(T::default, (), v)),
            old(self).same_initializers(final(self)),
    {
        self.raw.init(|| -> (value: T)
            ensures
                call_ensures(T::default, (), value),
            { T::default() });
    }

    /// Stores what `f` returns if the cell is empty; `f` is not called otherwise.
    pub fn init_with<F: FnOnce() -> T>(&mut self, f: F)
        requires
            old(self)@ is None ==> call_requires(f, ()),
        ensures
            old(self)@ is Some ==> final(self)@ == old(self)@,
            old(self)@ is None ==> (final(self)@ matches Some(v) && call_ensures(f, (), v)),
            old(self).same_initializers(final(self)),
    {
        self.raw.init(f);
    }

    /// Whether the cell holds its value.
    pub fn is_initialized(&self) -> (inited: bool)
        ensures
            inited == self@ is Some,
    {
        self.raw.is_initialized()
    }

    /// Whether the cell holds its value; the same as [`MutexCell::is_initialized`].
    pub fn is_init(&self) -> (inited: bool)
        ensures
            inited == self@ is Some,
    {
        self.raw.is_initialized()
    }

    /// The value, if the cell holds one; nothing is initialized.
    pub fn get(&self) -> (value: Option<&T>)
        ensures
            value is None <==> self@ is None,
            value matches Some(v) ==> self@ == Some(*v),
    {
        if self.raw.is_initialized() {
            Some(self.raw.inner())
        } else {
            None
        }
    }

    /// Whether the cell was built with a blocking initializer.
    pub fn has_init_fn(&self) -> (has: bool)
        ensures
            has == self.spec_init_fn() is Some,
    {
        self.init_fn.is_some()
    }

    /// Whether the cell was built with an asynchronous initializer.
    pub fn has_async_init_fn(&self) -> (has: bool)
        ensures
            has == self.spec_init_async_fn() is Some,
    {
        self.init_async_fn.is_some()
    }

    /// Makes the cell initialized with the blocking initializer, or else the
    /// asynchronous one; fails, changing nothing, when the cell has neither.
    /// An initialized cell keeps its value and no initializer is called.
    pub fn try_init(&mut self) -> (result: Result<(), &'static str>)
        requires
            old(self)@ is None ==> (old(self).spec_chosen() matches Some(i) ==> i.ready()),
        ensures
            result is Ok <==> old(self).spec_chosen() is Some,
            result is Ok ==> model::filled_by(old(self)@, old(self).spec_chosen(), final(self)@),
            result matches Err(message) ==> final(self)@ == old(self)@ && message@
                == error::spec_failure_message(CellKind::MutexCell, InitFailure::NoInitFn),
            old(self).same_initializers(final(self)),
    {
        match &self.init_fn {
            Some(init_fn) => {
                self.raw.init(|| -> (r: T)
                    requires
                        init_fn.ready(),
                    ensures
                        init_fn.produces(r),
                    { init_fn.call() });
                Ok(())
            },
            None => match &self.init_async_fn {
                Some(init_async_fn) => {
                    self.raw.init(|| -> (r: T)
                        requires
                            init_async_fn.ready(),
                        ensures
                            init_async_fn.produces(r),
                        { init_async_fn.call() });
                    Ok(())
                },
                None => Err(failure_message(CellKind::MutexCell, InitFailure::NoInitFn)),
            },
        }
    }


    /// Makes the cell initialized with the asynchronous initializer, or else
    /// the blocking one; fails, changing nothing, when the cell has neither.
    /// An initialized cell keeps its value and no initializer is called.
    pub fn try_init_async(&mut self) -> (result: Result<(), &'static str>)
        requires
            old(self)@ is None ==> (old(self).spec_chosen_async() matches Some(i) ==> i.ready()),
        ensures
            result is Ok <==> old(self).spec_chosen_async() is Some,
            result is Ok ==> model::filled_by(
                old(self)@,
                old(self).spec_chosen_async(),
                final(self)@,
            ),
            result matches Err(message) ==> final(self)@ == old(self)@ && message@
                == error::spec_failure_message(CellKind::MutexCell, InitFailure::NoAsyncInitFn),
            old(self).same_initializers(final(self)),
    {
        match &self.init_async_fn {
            Some(init_async_fn) => {
                self.raw.init(|| -> (r: T)
                    requires
                        init_async_fn.ready(),
                    ensures
                        init_async_fn.produces(r),
                    { init_async_fn.call() });
                Ok(())
            },
            None => match &self.init_fn {
                Some(init_fn) => {
                    self.raw.init(|| -> (r: T)
                        requires
                            init_fn.ready(),
                        ensures
                            init_fn.produces(r),
                        { init_fn.call() });
                    Ok(())
                },
                None => Err(failure_message(CellKind::MutexCell, InitFailure::NoAsyncInitFn)),
            },
        }
    }

    /// Makes the cell initialized if it is not, as [`MutexCell::try_init`] does.
    fn fill(&mut self)
        requires
            model::can_fill(old(self)@, old(self).spec_chosen()),
        ensures
            model::filled_by(old(self)@, old(self).spec_chosen(), final(self)@),
            final(self)@ is Some,
            old(self).same_initializers(final(self)),
    {
        if !self.raw.is_initialized() {
            let _ = self.try_init();
        }
    }

    /// Exclusive access to the value, which is produced first if the cell is
    /// empty. The cell must be initialized or have an initializer.
    pub fn lock(&mut self) -> (value: &mut T)
        requires
            model::can_fill(old(self)@, old(self).spec_chosen()),
        ensures
            model::filled_by(old(self)@, old(self).spec_chosen(), Some(*value)),
            final(self)@ == Some(*final(value)),
            old(self).same_initializers(final(self)),
    {
        self.fill();
        self.raw.inner_mut()
    }

    /// Calls `f` on the value, which is produced first if the cell is empty.
    pub fn with<R, F: FnOnce(&T) -> R>(&mut self, f: F) -> (result: R)
        requires
            model::can_fill(old(self)@, old(self).spec_chosen()),
            forall|v: T|
                model::filled_by(old(self)@, old(self).spec_chosen(), Some(v)) ==> call_requires(
                    f,
                    (&v,),
                ),
        ensures
            model::filled_by(old(self)@, old(self).spec_chosen(), final(self)@),
            call_ensures(f, (&final(self)@.unwrap(),), result),
            old(self).same_initializers(final(self)),
    {
        let value = self.lock();
        f(value)
    }

    /// Calls `f` on the value to change it in place; the value is produced
    /// first if the cell is empty.
    pub fn with_mut<R, F: FnOnce(&mut T) -> R>(&mut self, f: F) -> (result: R)
        requires
            model::can_fill(old(self)@, old(self).spec_chosen()),
            forall|v: &mut T|
                model::filled_by(old(self)@, old(self).spec_chosen(), Some(*v)) ==> call_requires(
                    f,
                    (v,),
                ),
        ensures
            exists|v: &mut T|
                model::filled_by(old(self)@, old(self).spec_chosen(), Some(*v)) && final(self)@
                    == Some(*final(v)) && call_ensures(f, (v,), result),
            old(self).same_initializers(final(self)),
    {
        let value = self.lock();
        f(value)
    }

    /// A clone of the value, which is produced first if the cell is empty.
    pub fn cloned(&mut self) -> (value: T)
        where
            T: Clone,
        requires
            model::can_fill(old(self)@, old(self).spec_chosen()),
        ensures
            model::filled_by(old(self)@, old(self).spec_chosen(), final(self)@),
            cloned::<T>(final(self)@.unwrap(), value),
            old(self).same_initializers(final(self)),
    {
        let value = self.lock();
        value.clone()
    }

    /// A copy of the value, which is produced first if the cell is empty.
    pub fn copied(&mut self) -> (value: T)
        where
            T: Copy,
        requires
            model::can_fill(old(self)@, old(self).spec_chosen()),
        ensures
            model::filled_by(old(self)@, old(self).spec_chosen(), final(self)@),
            value == final(self)@.unwrap(),
            old(self).same_initializers(final(self)),
    {
        let value = self.lock();
        *value
    }
}

impl<T, I> CellTrait<T> for MutexCell<T, I> {
    open spec fn spec_contents(&self) -> Option<T> {
        self@
    }

    fn new() -> (cell: Self) {
        MutexCell { raw: RawMutexCell::new(), init_fn: None, init_async_fn: None }
    }
}

impl<T, I: Initializer<Value = T>> ManagedCell<T> for MutexCell<T, I> {
    fn init(&mut self, value: T) {
        MutexCell::init(self, value)
    }

    fn is_initialized(&self) -> (inited: bool) {
        MutexCell::is_initialized(self)
    }
}

impl<T: Default> Default for MutexCell<T, DefaultInit<T>> {
    /// An empty cell that stores `T::default()` when its value is first needed.
    fn default() -> (cell: Self)
        ensures
            cell@ is None,
            cell.spec_init_fn() is Some,
            cell.spec_init_async_fn() is None,
    {
        MutexCell { raw: RawMutexCell::new(), init_fn: Some(DefaultInit::new()), init_async_fn: None }
    }
}

/// A cell for a value that is set once, lazily.
pub struct OnceCell<T, I = NoInit<T>> {
    raw: RawOnceCell<T>,
    init_fn: Option<I>,
    init_async_fn: Option<I>,
}

impl<T, I> View for OnceCell<T, I> {
    type V = Option<T>;

    /// `None` while the cell is not initialized, else its value.
    closed spec fn view(&self) -> Option<T> {
        self.raw@
    }
}

impl<T, I> OnceCell<T, I> {
    /// The blocking initializer the cell was built with.
    pub closed spec fn spec_init_fn(&self) -> Option<I> {
        self.init_fn
    }

    /// The asynchronous initializer the cell was built with.
    pub closed spec fn spec_init_async_fn(&self) -> Option<I> {
        self.init_async_fn
    }

    /// The initializer that [`OnceCell::try_init`] calls.
    pub open spec fn spec_chosen(&self) -> Option<I> {
        model::chosen(self.spec_init_fn(), self.spec_init_async_fn())
    }

    /// The initializer that [`OnceCell::try_init_async`] calls.
    pub open spec fn spec_chosen_async(&self) -> Option<I> {
        model::chosen_async(self.spec_init_fn(), self.spec_init_async_fn())
    }

    /// Whether `other` holds the same initializers.
    pub open spec fn same_initializers(&self, other: &Self) -> bool {
        &&& other.spec_init_fn() == self.spec_init_fn()
        &&& other.spec_init_async_fn() == self.spec_init_async_fn()
    }
}

impl<T> OnceCell<T, NoInit<T>> {
    /// An empty cell without initializers.
    pub fn new() -> (cell: Self)
        ensures
            cell@ is None,
            cell.spec_init_fn() is None,
            cell.spec_init_async_fn() is None,
    {
        OnceCell { raw: RawOnceCell::new(), init_fn: None, init_async_fn: None }
    }

    /// A cell initialized with `value`, without initializers.
    pub fn from(value: T) -> (cell: Self)
        ensures
            cell@ == Some(value),
            cell.spec_init_fn() is None,
            cell.spec_init_async_fn() is None,
    {
        let mut raw = RawOnceCell::new();
        raw.init(move || -> (r: T)
            ensures
                r == value,
            { value });
        OnceCell { raw, init_fn: None, init_async_fn: None }
    }
}

impl<T, F: Fn() -> T> OnceCell<T, FnInit<F>> {
    /// An empty cell that calls `init_fn` when its value is first needed.
    pub fn with_fn(init_fn: F) -> (cell: Self)
        ensures
            cell@ is None,
            cell.spec_init_fn() == Some(FnInit { f: init_fn }),
            cell.spec_init_async_fn() is None,
    {
        OnceCell { raw: RawOnceCell::new(), init_fn: Some(FnInit { f: init_fn }), init_async_fn: None }
    }

    /// An empty cell whose value is produced by the asynchronous initializer
    /// that `init_async_fn` runs to completion.
    pub fn with_async_fn(init_async_fn: F) -> (cell: Self)
        ensures
            cell@ is None,
            cell.spec_init_fn() is None,
            cell.spec_init_async_fn() == Some(FnInit { f: init_async_fn }),
    {
        OnceCell { raw: RawOnceCell::new(), init_fn: None, init_async_fn: Some(FnInit { f: init_async_fn }) }
    }
}

impl<T: Default> OnceCell<T, DefaultInit<T>> {
    /// An empty cell that stores `T::default()` when its value is first needed.
    pub fn default() -> (cell: Self)
        ensures
            cell@ is None,
            cell.spec_init_fn() is Some,
            cell.spec_init_async_fn() is None,
    {
        OnceCell { raw: RawOnceCell::new(), init_fn: Some(DefaultInit::new()), init_async_fn: None }
    }
}

impl<T, I: Initializer<Value = T>> OnceCell<T, I> {
    /// Stores `value` if the cell is empty; an initialized cell keeps its value.
    pub fn init(&mut self, value: T)
        ensures
            final(self)@ == model::after_init(old(self)@, value),
            old(self).same_initializers(final(self)),
    {
        self.raw.init(move || -> (r: T)
            ensures
                r == value,
            { value });
    }

    /// Stores `T::default()` if the cell is empty.
    pub fn init_default(&mut self)
        where
            T: Default,
        ensures
            old(self)@ is Some ==> final(self)@ == old(self)@,
            old(self)@ is None ==> (final(self)@ matches Some(v) && call_ensures(T::default, (), v)),
            old(self).same_initializers(final(self)),
    {
        self.raw.init(|| -> (value: T)
            ensures
                call_ensures(T::default, (), value),
            { T::default() });
    }

    /// Stores what `f` returns if the cell is empty; `f` is not called otherwise.
    pub fn init_with<F: FnOnce() -> T>(&mut self, f: F)
        requires
            old(self)@ is None ==> call_requires(f, ()),
        ensures
            old(self)@ is Some ==> final(self)@ == old(self)@,
            old(self)@ is None ==> (final(self)@ matches Some(v) && call_ensures(f, (), v)),
            old(self).same_initializers(final(self)),
    {
        self.raw.init(f);
    }

    /// Whether the cell holds its value.
    pub fn is_initialized(&self) -> (inited: bool)
        ensures
            inited == self@ is Some,
    {
        self.raw.is_initialized()
    }

    /// Whether the cell holds its value; the same as [`OnceCell::is_initialized`].
    pub fn is_init(&self) -> (inited: bool)
        ensures
            inited == self@ is Some,
    {
        self.raw.is_initialized()
    }

    /// The value, if the cell holds one; nothing is initialized.
    pub fn get(&self) -> (value: Option<&T>)
        ensures
            value is None <==> self@ is None,
            value matches Some(v) ==> self@ == Some(*v),
    {
        if self.raw.is_initialized() {
            Some(self.raw.inner())
        } else {
            None
        }
    }

    /// Whether the cell was built with a blocking initializer.
    pub fn has_init_fn(&self) -> (has: bool)
        ensures
            has == self.spec_init_fn() is Some,
    {
        self.init_fn.is_some()
    }

    /// Whether the cell was built with an asynchronous initializer.
    pub fn has_async_init_fn(&self) -> (has: bool)
        ensures
            has == self.spec_init_async_fn() is Some,
    {
        self.init_async_fn.is_some()
    }

    /// Makes the cell initialized with the blocking initializer, or else the
    /// asynchronous one; fails, changing nothing, when the cell has neither.
    /// An initialized cell keeps its value and no initializer is called.
    pub fn try_init(&mut self) -> (result: Result<(), &'static str>)
        requires
            old(self)@ is None ==> (old(self).spec_chosen() matches Some(i) ==> i.ready()),
        ensures
            result is Ok <==> old(self).spec_chosen() is Some,
            result is Ok ==> model::filled_by(old(self)@, old(self).spec_chosen(), final(self)@),
            result matches Err(message) ==> final(self)@ == old(self)@ && message@
                == error::spec_failure_message(CellKind::OnceCell, InitFailure::NoInitFn),
            old(self).same_initializers(final(self)),
    {
        match &self.init_fn {
            Some(init_fn) => {
                self.raw.init(|| -> (r: T)
                    requires
                        init_fn.ready(),
                    ensures
                        init_fn.produces(r),
                    { init_fn.call() });
                Ok(())
            },
            None => match &self.init_async_fn {
                Some(init_async_fn) => {
                    self.raw.init(|| -> (r: T)
                        requires
                            init_async_fn.ready(),
                        ensures
                            init_async_fn.produces(r),
                        { init_async_fn.call() });
                    Ok(())
                },
                None => Err(failure_message(CellKind::OnceCell, InitFailure::NoInitFn)),
            },
        }
    }


    /// Makes the cell initialized with the asynchronous initializer, or else
    /// the blocking one; fails, changing nothing, when the cell has neither.
    /// An initialized cell keeps its value and no initializer is called.
    pub fn try_init_async(&mut self) -> (result: Result<(), &'static str>)
        requires
            old(self)@ is None ==> (old(self).spec_chosen_async() matches Some(i) ==> i.ready()),
        ensures
            result is Ok <==> old(self).spec_chosen_async() is Some,
            result is Ok ==> model::filled_by(
                old(self)@,
                old(self).spec_chosen_async(),
                final(self)@,
            ),
            result matches Err(message) ==> final(self)@ == old(self)@ && message@
                == error::spec_failure_message(CellKind::OnceCell, InitFailure::NoAsyncInitFn),
            old(self).same_initializers(final(self)),
    {
        match &self.init_async_fn {
            Some(init_async_fn) => {
                self.raw.init(|| -> (r: T)
                    requires
                        init_async_fn.ready(),
                    ensures
                        init_async_fn.produces(r),
                    { init_async_fn.call() });
                Ok(())
            },
            None => match &self.init_fn {
                Some(init_fn) => {
                    self.raw.init(|| -> (r: T)
                        requires
                            init_fn.ready(),
                        ensures
                            init_fn.produces(r),
                        { init_fn.call() });
                    Ok(())
                },
                None => Err(failure_message(CellKind::OnceCell, InitFailure::NoAsyncInitFn)),
            },
        }
    }
}

impl<T, I> CellTrait<T> for OnceCell<T, I> {
    open spec fn spec_contents(&self) -> Option<T> {
        self@
    }

    fn new() -> (cell: Self) {
        OnceCell { raw: RawOnceCell::new(), init_fn: None, init_async_fn: None }
    }
}

impl<T, I: Initializer<Value = T>> ManagedCell<T> for OnceCell<T, I> {
    fn init(&mut self, value: T) {
        OnceCell::init(self, value)
    }

    fn is_initialized(&self) -> (inited: bool) {
        OnceCell::is_initialized(self)
    }
}

impl<T: Default> Default for OnceCell<T, DefaultInit<T>> {
    /// An empty cell that stores `T::default()` when its value is first needed.
    fn default() -> (cell: Self)
        ensures
            cell@ is None,
            cell.spec_init_fn() is Some,
            cell.spec_init_async_fn() is None,
    {
        OnceCell { raw: RawOnceCell::new(), init_fn: Some(DefaultInit::new()), init_async_fn: None }
    }
}

} // verus!
