use global_cell::cell::{MutexCell, OnceCell};
use global_cell::traits::{CellTrait, ManagedCell};
use global_cell::Cell;

#[test]
fn test_global() {
    let mut cell: Cell<u32> = Cell::new();
    cell.set(42);
    cell.with(|value| {
        assert_eq!(*value, 42);
    });
}

#[test]
fn test_overwrite() {
    let mut cell: Cell<u32> = Cell::new();
    cell.set(10);
    cell.set(20);
    cell.with(|value| {
        assert_eq!(*value, 20);
    });
}

#[test]
fn inner_cell() {
    let mut inner_cell = Cell::new();
    inner_cell.set("Hello".to_string());
    let lock = inner_cell.write();
    lock.push_str(" world");
    let lock = inner_cell.read();
    assert_eq!(*lock, "Hello world");
}

#[test]
fn with_mut_modifies_in_place() {
    let mut cell = Cell::new();
    cell.set(vec![1, 2, 3]);
    cell.with_mut(|vec| {
        vec.push(4);
    });
    assert_eq!(cell.read(), &vec![1, 2, 3, 4]);
    let first = cell.with(|vec| vec[0]);
    assert_eq!(first, 1);
}

#[test]
fn new_cell_is_empty_and_cannot_try_init() {
    let mut cell: Cell<u32> = Cell::new();
    assert!(!cell.is_initialized());
    assert_eq!(cell.try_init(), Err("Cell has no init function"));
    assert_eq!(cell.try_init_async(), Err("Cell has no async init function"));
    assert!(!cell.is_initialized());
    cell.init(3);
    assert!(cell.is_initialized());
    // The result depends on the initializers, not on the value.
    assert_eq!(cell.try_init(), Err("Cell has no init function"));
    assert_eq!(cell.copy(), 3);
}

#[test]
fn init_keeps_the_first_value() {
    let mut cell: Cell<u32> = Cell::new();
    cell.init(1);
    cell.init(2);
    cell.init_with(|| 3);
    assert_eq!(cell.copy(), 1);
    cell.set(4);
    assert_eq!(cell.copy(), 4);
}

#[test]
fn with_fn_initializes_lazily() {
    let mut cell = Cell::with_fn(|| 17u32);
    assert!(!cell.is_initialized());
    assert_eq!(*cell.read(), 17);
    assert!(cell.is_initialized());
    assert_eq!(cell.try_init(), Ok(()));
    assert_eq!(cell.try_init_async(), Ok(()));
    *cell.write() = 18;
    assert_eq!(cell.copy(), 18);
}

#[test]
fn with_async_fn_initializes_both_ways() {
    let mut cell = Cell::with_async_fn(|| "lazy".to_string());
    assert_eq!(cell.try_init_async(), Ok(()));
    assert_eq!(cell.cloned(), "lazy");
    let mut other = Cell::with_async_fn(|| 5u8);
    assert_eq!(other.try_init(), Ok(()));
    assert_eq!(other.copy(), 5);
}

#[test]
fn default_cell_holds_default_value() {
    let mut cell: Cell<u64, _> = Cell::default();
    assert!(!cell.is_initialized());
    assert_eq!(cell.copy(), 0);
    let mut strings: Cell<String, _> = Cell::default();
    assert_eq!(strings.cloned(), "");
    let mut plain: Cell<u8, _> = Default::default();
    assert!(!plain.is_initialized());
    assert_eq!(plain.copy(), 0);
    assert!(plain.is_initialized());
}

#[test]
fn init_default_stores_default() {
    let mut cell: Cell<i32> = Cell::new();
    cell.init_default();
    assert_eq!(cell.copy(), 0);
    cell.set(5);
    cell.init_default();
    assert_eq!(cell.copy(), 5);
}

#[test]
fn take_leaves_none() {
    let mut cell: Cell<Option<String>> = Cell::new();
    cell.set(Some("a".to_string()));
    assert_eq!(cell.take(), Some("a".to_string()));
    assert_eq!(cell.take(), None);
    assert!(cell.is_initialized());
    cell.set(Some("b".to_string()));
    assert_eq!(cell.take(), Some("b".to_string()));
}

#[test]
fn take_initializes_first() {
    let mut cell = Cell::with_fn(|| Some(9u8));
    assert_eq!(cell.take(), Some(9));
    assert_eq!(cell.take(), None);
}

#[test]
fn mutex_cell_lock_and_access() {
    let mut cell = MutexCell::with_fn(|| vec![1u8]);
    cell.lock().push(2);
    assert_eq!(cell.cloned(), vec![1, 2]);
    cell.with_mut(|v| v.push(3));
    assert_eq!(cell.with(|v| v.len()), 3);
    let mut counter: MutexCell<u32> = MutexCell::new();
    assert_eq!(counter.try_init(), Err("MutexCell has no init function"));
    assert_eq!(counter.try_init_async(), Err("MutexCell has no async init function"));
    counter.init(41);
    *counter.lock() += 1;
    assert_eq!(counter.copied(), 42);
}

#[test]
fn mutex_cell_default() {
    let mut cell: MutexCell<u16, _> = MutexCell::default();
    assert_eq!(cell.copied(), 0);
    let mut other: MutexCell<u16, _> = Default::default();
    assert_eq!(other.try_init(), Ok(()));
    assert_eq!(other.copied(), 0);
}

#[test]
fn once_cell_initializes_once() {
    let mut cell: OnceCell<u32> = OnceCell::new();
    assert!(!cell.is_initialized());
    assert_eq!(cell.try_init(), Err("OnceCell has no init function"));
    assert_eq!(cell.try_init_async(), Err("OnceCell has no async init function"));
    cell.init_with(|| 8);
    assert!(cell.is_initialized());
    let mut lazy = OnceCell::with_fn(|| 1u32);
    assert_eq!(lazy.try_init(), Ok(()));
    assert!(lazy.is_initialized());
    let mut lazy_async = OnceCell::with_async_fn(|| 1u32);
    assert_eq!(lazy_async.try_init_async(), Ok(()));
    assert!(lazy_async.is_initialized());
    let mut defaulted: OnceCell<u32, _> = OnceCell::default();
    assert_eq!(defaulted.try_init(), Ok(()));
    assert!(defaulted.is_initialized());
    let mut by_default: OnceCell<u8> = OnceCell::new();
    by_default.init_default();
    assert!(by_default.is_initialized());
    assert_eq!(by_default.get(), Some(&0));
}

#[test]
fn try_init_prefers_the_blocking_initializer() {
    // A cell built with one initializer uses it from both entry points.
    let mut blocking = Cell::with_fn(|| 1u8);
    assert_eq!(blocking.try_init_async(), Ok(()));
    assert_eq!(blocking.copy(), 1);
}

#[test]
fn managed_cell_trait() {
    let mut cell = <Cell<u32> as CellTrait<u32>>::new();
    assert!(!ManagedCell::is_initialized(&cell));
    ManagedCell::init(&mut cell, 5);
    ManagedCell::init(&mut cell, 6);
    assert!(ManagedCell::is_initialized(&cell));
    assert_eq!(cell.copy(), 5);
    let mut once = <OnceCell<u32> as CellTrait<u32>>::new();
    ManagedCell::init(&mut once, 1);
    assert!(ManagedCell::is_initialized(&once));
    let mut mutex = <MutexCell<u32> as CellTrait<u32>>::new();
    ManagedCell::init(&mut mutex, 2);
    assert_eq!(mutex.copied(), 2);
}

#[test]
fn from_builds_an_initialized_cell() {
    let mut cell = Cell::from(5u32);
    assert!(cell.is_init());
    assert_eq!(cell.get(), Some(&5));
    assert_eq!(cell.try_init(), Err("Cell has no init function"));
    let mut mutex = MutexCell::from(String::from("m"));
    assert_eq!(mutex.lock().as_str(), "m");
    let once = OnceCell::from(1u8);
    assert!(once.is_initialized());
    assert_eq!(once.get(), Some(&1));
}

#[test]
fn get_does_not_initialize() {
    let cell = Cell::with_fn(|| 3u8);
    assert_eq!(cell.get(), None);
    assert!(!cell.is_init());
    assert!(cell.has_init_fn());
    assert!(!cell.has_async_init_fn());
    let other = MutexCell::with_async_fn(|| 3u8);
    assert!(!other.has_init_fn());
    assert!(other.has_async_init_fn());
}

#[test]
fn clear_empties_an_option_cell() {
    let mut cell: Cell<Option<u32>> = Cell::new();
    cell.clear();
    assert_eq!(cell.get(), Some(&None));
    cell.set(Some(4));
    cell.clear();
    assert_eq!(cell.take(), None);
}
