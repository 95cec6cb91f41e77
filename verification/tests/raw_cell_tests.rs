use global_cell::raw_cell::{RawCell, RawDirectCell, RawMutexCell, RawOnceCell, RawOptionCell};
use global_cell::traits::CellTrait;

#[test]
fn raw_cell_init_once() {
    let mut cell: RawCell<u32> = RawCell::new();
    assert!(!cell.is_initialized());
    cell.init(|| 42);
    assert!(cell.is_initialized());
    assert_eq!(*cell.read(), 42);
    let mut called = false;
    cell.init(|| {
        called = true;
        7
    });
    assert!(!called);
    assert_eq!(*cell.inner(), 42);
}

#[test]
fn raw_cell_write_changes_value() {
    let mut cell: RawCell<String> = RawCell::new();
    cell.init(|| "Hello".to_string());
    cell.write().push_str(" world");
    assert_eq!(cell.read(), "Hello world");
    *cell.inner_mut() = "x".to_string();
    assert_eq!(cell.inner(), "x");
}

#[test]
fn raw_cell_default_is_initialized() {
    let cell: RawCell<u32> = RawCell::default();
    assert!(cell.is_initialized());
    assert_eq!(*cell.read(), 0);
    let mutex: RawMutexCell<u64> = RawMutexCell::default();
    assert!(mutex.is_initialized());
    assert_eq!(*mutex.inner(), 0);
}

#[test]
fn raw_mutex_cell_init_and_change() {
    let mut cell: RawMutexCell<Vec<u32>> = RawMutexCell::new();
    assert!(!cell.is_initialized());
    cell.init(|| vec![1, 2, 3]);
    cell.inner_mut().push(4);
    assert_eq!(cell.inner(), &vec![1, 2, 3, 4]);
}

#[test]
fn raw_once_cell_get_or_init() {
    let mut cell: RawOnceCell<u32> = RawOnceCell::new();
    assert_eq!(*cell.get_or_init(|| 5), 5);
    assert_eq!(*cell.get_or_init(|| 6), 5);
    cell.init(|| 9);
    assert_eq!(*cell.inner(), 5);
    assert!(cell.is_initialized());
}

#[test]
fn raw_direct_cell() {
    let mut cell: RawDirectCell<i64> = RawDirectCell::new();
    assert!(!cell.is_initialized());
    assert_eq!(*cell.get_or_init(|| -3), -3);
    *cell.inner_mut() += 10;
    assert_eq!(*cell.inner(), 7);
    cell.init(|| 0);
    assert_eq!(*cell.inner(), 7);
}

#[test]
fn raw_option_cell_can_be_empty_once_initialized() {
    let mut cell: RawOptionCell<u32> = RawOptionCell::new();
    cell.init(|| None);
    assert_eq!(*cell.read(), None);
    *cell.write() = Some(8);
    assert_eq!(*cell.read(), Some(8));
    cell.init(|| Some(1));
    assert_eq!(cell.write().take(), Some(8));
    assert_eq!(*cell.read(), None);
}

#[test]
fn cell_trait_new_is_empty() {
    let a = <RawCell<u8> as CellTrait<u8>>::new();
    assert!(!a.is_initialized());
    let b = <RawDirectCell<u8> as CellTrait<u8>>::new();
    assert!(!b.is_initialized());
    let c = <RawOnceCell<u8> as CellTrait<u8>>::new();
    assert!(!c.is_initialized());
}

#[test]
fn raw_once_cell_never_drops_its_value() {
    let shared = std::rc::Rc::new(5u32);
    let mut cell: RawOnceCell<std::rc::Rc<u32>> = RawOnceCell::new();
    cell.init(|| shared.clone());
    assert_eq!(std::rc::Rc::strong_count(&shared), 2);
    drop(cell);
    assert_eq!(std::rc::Rc::strong_count(&shared), 2);
}
