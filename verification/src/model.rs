//! What the operations of the cells do to a cell's contents, and the laws that
//! relate them.
//!
//! The contents of a cell are an `Option`: `None` while the cell is not
//! initialized, `Some(value)` afterwards.
use vstd::prelude::*;
use crate::init::Initializer;

verus! {

/// The initializer that a blocking initialization calls: the blocking one
/// when the cell has it, else the asynchronous one.
pub open spec fn chosen<I>(init_fn: Option<I>, init_async_fn: Option<I>) -> Option<I> {
    if init_fn is Some {
        init_fn
    } else {
        init_async_fn
    }
}

/// The initializer that an asynchronous initialization calls: the
/// asynchronous one when the cell has it, else the blocking one.
pub open spec fn chosen_async<I>(init_fn: Option<I>, init_async_fn: Option<I>) -> Option<I> {
    if init_async_fn is Some {
        init_async_fn
    } else {
        init_fn
    }
}

/// Whether a cell with these contents can be made initialized by `init`: it
/// is initialized already, or `init` exists and may be called.
pub open spec fn can_fill<I: Initializer>(contents: Option<I::Value>, init: Option<I>) -> bool {
    contents is Some || (init matches Some(i) && i.ready())
}

/// Whether `after` is what a cell holding `before` holds once made
/// initialized by `init`: what was stored stays, else `init` produced it.
pub open spec fn filled_by<I: Initializer>(
    before: Option<I::Value>,
    init: Option<I>,
    after: Option<I::Value>,
) -> bool {
    if before is Some {
        after == before
    } else {
        init matches Some(i) && after matches Some(v) && i.produces(v)
    }
}

/// The contents after initializing with `value`: a value already stored stays.
pub open spec fn after_init<T>(contents: Option<T>, value: T) -> Option<T> {
    if contents is Some {
        contents
    } else {
        Some(value)
    }
}

/// The contents after setting `value`, initialized or not.
pub open spec fn after_set<T>(contents: Option<T>, value: T) -> Option<T> {
    Some(value)
}

/// The contents of an initialized cell of options after its value is taken.
pub open spec fn after_take<T>(contents: Option<Option<T>>) -> Option<Option<T>> {
    Some(None)
}

/// What taking the value of an initialized cell of options hands back.
pub open spec fn taken<T>(contents: Option<Option<T>>) -> Option<T> {
    contents.unwrap()
}

/// Initialization happens once: the first value stays, whatever later
/// initializations offer, and an initialized cell stays initialized.
pub proof fn lemma_first_init_wins<T>(contents: Option<T>, first: T, second: T)
    ensures
        after_init(contents, first) is Some,
        contents is None ==> after_init(contents, first) == Some(first),
        contents is Some ==> after_init(contents, first) == contents,
        after_init(after_init(contents, first), second) == after_init(contents, first),
{
}

/// A read after a set sees the set value, the last of two sets wins, a set
/// replaces what an initialization stored, and an initialization after a set
/// changes nothing.
pub proof fn lemma_set_then_read<T>(contents: Option<T>, first: T, second: T)
    ensures
        after_set(contents, first) == Some(first),
        after_set(after_set(contents, first), second) == after_set(contents, second),
        after_set(after_init(contents, first), second) == Some(second),
        after_init(after_set(contents, first), second) == Some(first),
{
}

/// Taking leaves the cell initialized and empty; a second take hands back
/// nothing, and a set after a take is read back.
pub proof fn lemma_take_empties<T>(contents: Option<Option<T>>, value: Option<T>)
    ensures
        after_take(contents) == Some(None::<T>),
        taken(after_take(contents)) is None,
        after_take(after_take(contents)) == after_take(contents),
        taken(after_set(after_take(contents), value)) == value,
{
}

/// Making a cell initialized keeps a value already stored, and always leaves
/// the cell initialized.
pub proof fn lemma_fill_keeps_and_initializes<I: Initializer>(
    before: Option<I::Value>,
    init: Option<I>,
    after: Option<I::Value>,
)
    requires
        filled_by(before, init, after),
    ensures
        after is Some,
        before is Some ==> after == before,
{
}

/// Once a cell holds a value it stays initialized under every operation:
/// every kind of initialization (by value, by function, by an initializer)
/// keeps the stored value, a set stores the set value, and a take leaves the
/// cell holding `None`.
pub proof fn lemma_initialized_stays_initialized<I: Initializer>(
    contents: Option<I::Value>,
    init: Option<I>,
    after: Option<I::Value>,
    value: I::Value,
    options: Option<Option<I::Value>>,
)
    requires
        contents is Some,
    ensures
        after_init(contents, value) == contents,
        filled_by(contents, init, after) <==> after == contents,
        after_set(contents, value) is Some,
        after_take(options) is Some,
{
}

/// Filling a cell is initializing it with the value that was produced: what
/// every operation that makes a cell initialized first (`try_init`, `read`,
/// `write`, `with`, `take` and the rest) does to its contents is an
/// initialization with some value.
pub proof fn lemma_fill_is_init<I: Initializer>(
    before: Option<I::Value>,
    init: Option<I>,
    after: Option<I::Value>,
)
    requires
        filled_by(before, init, after),
    ensures
        after == after_init(before, after.unwrap()),
{
}

/// What an operation on a managed cell does to its contents.
pub enum CellOp<T> {
    /// An initialization: `init`, `init_with`, `init_default`, a `try_init`
    /// or `try_init_async` that returned `Ok`, or an access that fills the
    /// cell first, with the value offered or produced.
    Init(T),
    /// A `set` (for a cell of options, also `clear`, and the `None` that a
    /// `take` leaves behind).
    Store(T),
    /// An operation that changes nothing: `is_initialized`, `is_init`, `get`,
    /// or a `try_init` that failed.
    Observe,
}

/// The contents after one operation.
pub open spec fn after_op<T>(contents: Option<T>, op: CellOp<T>) -> Option<T> {
    match op {
        CellOp::Init(v) => after_init(contents, v),
        CellOp::Store(v) => after_set(contents, v),
        CellOp::Observe => contents,
    }
}

/// The contents after the operations `ops`, in order.
pub open spec fn after_ops<T>(contents: Option<T>, ops: Seq<CellOp<T>>) -> Option<T>
    decreases ops.len(),
{
    if ops.len() == 0 {
        contents
    } else {
        after_ops(after_op(contents, ops[0]), ops.drop_first())
    }
}

/// Whether the operation stores a value in an empty cell.
pub open spec fn initializes<T>(op: CellOp<T>) -> bool {
    !(op is Observe)
}

/// A cell is initialized after a run of operations exactly when it was
/// initialized before or one of the operations was an initialization or a
/// set; once initialized it stays initialized; and an initialized cell keeps
/// its value under every initialization.
pub proof fn lemma_initialized_iff_initializing_op<T>(contents: Option<T>, ops: Seq<CellOp<T>>)
    ensures
        after_ops(contents, ops) is Some <==> (contents is Some || exists|i: int|
            0 <= i < ops.len() && initializes(#[trigger] ops[i])),
        contents is Some ==> after_ops(contents, ops) is Some,
        contents is Some && (forall|i: int| 0 <= i < ops.len() ==> !(#[trigger] ops[i] is Store))
            ==> after_ops(contents, ops) == contents,
    decreases ops.len(),
{
    if ops.len() > 0 {
        let rest = ops.drop_first();
        lemma_initialized_iff_initializing_op(after_op(contents, ops[0]), rest);
        if exists|i: int| 0 <= i < ops.len() && initializes(#[trigger] ops[i]) {
            let i = choose|i: int| 0 <= i < ops.len() && initializes(#[trigger] ops[i]);
            if i > 0 {
                assert(rest[i - 1] == ops[i]);
            }
        }
        if exists|j: int| 0 <= j < rest.len() && initializes(#[trigger] rest[j]) {
            let j = choose|j: int| 0 <= j < rest.len() && initializes(#[trigger] rest[j]);
            assert(ops[j + 1] == rest[j]);
        }
        if contents is Some && (forall|i: int| 0 <= i < ops.len() ==> !(#[trigger] ops[i] is Store)) {
            assert forall|j: int| 0 <= j < rest.len() implies !(#[trigger] rest[j] is Store) by {
                assert(ops[j + 1] == rest[j]);
            }
            assert(!(ops[0] is Store));
        }
    }
}

} // verus!
