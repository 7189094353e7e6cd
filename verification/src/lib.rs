//! A non-blocking cell for lazily initialized, externally owned, immutable
//! references.
//!
//! A [`LazyRef`] starts out empty (or pre-filled, via
//! [`LazyRef::new_initialized`]) and at any point holds at most one borrowed
//! value, valid for the lifetime the cell is declared with. Reads never block
//! and writes are unconditional: `set` overwrites whatever the cell held
//! before, and `get_or_init` fills an empty cell from a caller-supplied
//! initializer. The cell never owns the value it hands out; dropping the cell
//! frees nothing.
//!
//! All updates go through exclusive references, so the borrow checker supplies
//! the exclusion between writers that a shared-slot representation would have
//! to buy with atomic loads and stores.

use core::marker::PhantomData;
use vstd::prelude::*;
use vstd::std_specs::cmp::PartialEqSpec;

verus! {

/// A cell holding either nothing or a borrowed value valid for `'a`.
///
/// The marker field pins the cell to exactly the lifetime `'a` it was declared
/// with (invariant in `'a`, covariant in `T`), so a cell can never be retyped
/// to promise its contents live longer than they do.
#[derive(Debug)]
pub struct LazyRef<'a, T> {
    slot: Option<&'a T>,
    marker: PhantomData<&'a mut &'a ()>,
}

impl<'a, T> View for LazyRef<'a, T> {
    type V = Option<T>;

    closed spec fn view(&self) -> Option<T> {
        match self.slot {
            Some(r) => Some(*r),
            None => None,
        }
    }
}

/// The value observed through an optional reference, as an optional value.
pub open spec fn read_of<T>(r: Option<&T>) -> Option<T> {
    match r {
        Some(v) => Some(*v),
        None => None,
    }
}

impl<'a, T> LazyRef<'a, T> {
    /// Creates a new empty cell.
    #[must_use]
    pub fn new() -> (c: Self)
        ensures
            c@ is None,
    {
        LazyRef { slot: None, marker: PhantomData }
    }

    /// Creates a new cell that already holds `r`.
    #[must_use]
    pub fn new_initialized(r: &'a T) -> (c: Self)
        ensures
            c@ == Some(*r),
    {
        LazyRef { slot: Some(r), marker: PhantomData }
    }

    /// Gets the underlying reference, or `None` if the cell is empty.
    ///
    /// Never blocks, has no side effect, and the returned borrow lives for
    /// `'a`, independent of the borrow of the cell itself.
    #[must_use]
    pub fn get(&self) -> (r: Option<&'a T>)
        ensures
            read_of(r) == self@,
    {
        self.slot
    }

    /// Gets the underlying reference, or `None` if the cell is empty.
    ///
    /// Behaves exactly like [`get`](Self::get); the exclusive borrow it asks
    /// for lets an owner read without any shared-access machinery. The cell is
    /// left untouched.
    #[must_use]
    pub fn get_owned(&mut self) -> (r: Option<&'a T>)
        ensures
            read_of(r) == old(self)@,
            *final(self) == *old(self),
    {
        self.slot
    }

    /// Sets the contents of this cell to `r`, silently overwriting whatever it
    /// held before. Cannot fail.
    pub fn set(&mut self, r: &'a T)
        ensures
            final(self)@ == Some(*r),
    {
        self.slot = Some(r);
    }

    /// Sets the contents of this cell to `r`. Behaves exactly like
    /// [`set`](Self::set), through an exclusive borrow.
    pub fn set_owned(&mut self, r: &'a T)
        ensures
            final(self)@ == Some(*r),
    {
        self.slot = Some(r);
    }

    /// Consumes the cell, returning the wrapped reference, or `None` if the
    /// cell was empty. Returns exactly what [`get`](Self::get) would have
    /// returned just before the call.
    #[must_use]
    pub fn into_inner(self) -> (r: Option<&'a T>)
        ensures
            read_of(r) == self@,
    {
        self.slot
    }

    /// Gets the underlying reference, first filling the cell with the result
    /// of `f` if it was empty.
    ///
    /// On a cell that already holds a value, `f` is dropped without being
    /// invoked and the held value comes back unchanged. On an empty cell the
    /// initializer runs once, its result is stored, and that same reference is
    /// returned. `f` is not allowed to fail; a fallible initialization should
    /// be run to completion before the result is handed to [`set`](Self::set).
    #[must_use]
    pub fn get_or_init<F: FnOnce() -> &'a T>(&mut self, f: F) -> (r: &'a T)
        requires
            old(self)@ is None ==> call_requires(f, ()),
        ensures
            final(self)@ == Some(*r),
            old(self)@ is Some ==> old(self)@ == Some(*r) && *final(self) == *old(self),
            old(self)@ is None ==> call_ensures(f, (), r),
    {
        match self.slot {
            Some(v) => v,
            None => {
                let v = f();
                self.slot = Some(v);
                v
            },
        }
    }

    /// Checks whether the cell currently holds a value.
    #[must_use]
    pub fn is_initialized(&self) -> (r: bool)
        ensures
            r == (self@ is Some),
    {
        self.slot.is_some()
    }
}

impl<'a, T> Clone for LazyRef<'a, T> {
    /// The clone holds the same reference the original held at the moment of
    /// cloning (or nothing), and lives its own life afterwards: writing to
    /// either cell leaves the other untouched.
    fn clone(&self) -> (c: Self)
        ensures
            c@ == self@,
    {
        match self.get() {
            Some(r) => Self::new_initialized(r),
            None => Self::new(),
        }
    }
}

impl<'a, T> Default for LazyRef<'a, T> {
    /// A default-constructed cell is empty.
    fn default() -> (c: Self)
        ensures
            c@ is None,
    {
        Self::new()
    }
}

impl<'a, T: PartialEq> PartialEq for LazyRef<'a, T> {
    /// Two cells are equal exactly when their current contents are both
    /// absent, or both present and equal as values. Where the two references
    /// point is never compared.
    fn eq(&self, other: &Self) -> bool {
        match (self.get(), other.get()) {
            (Some(a), Some(b)) => *a == *b,
            (None, None) => true,
            _ => false,
        }
    }
}

impl<'a, T: PartialEq> vstd::std_specs::cmp::PartialEqSpecImpl for LazyRef<'a, T> {
    open spec fn obeys_eq_spec() -> bool {
        T::obeys_eq_spec()
    }

    closed spec fn eq_spec(&self, other: &Self) -> bool {
        match (self.slot, other.slot) {
            (Some(a), Some(b)) => (*a).eq_spec(b),
            (None, None) => true,
            _ => false,
        }
    }
}

impl<'a, T: Eq> Eq for LazyRef<'a, T> {}

/// A read observes what was last published: once a cell's contents are the
/// value `v` — as `new_initialized`, `set`, `set_owned` and `get_or_init`
/// leave them — every result that `get`, `get_owned` or `into_inner` may
/// return observes exactly `Some(v)`.
pub proof fn lemma_write_then_read<'a, T>(c: &LazyRef<'a, T>, v: T, r: Option<&'a T>)
    requires
        c@ == Some(v),
        read_of(r) == c@,
    ensures
        r is Some,
        read_of(r) == Some(v),
{
}

/// Reading is idempotent: the outcomes of `get` and of `is_initialized` are
/// functions of the cell's contents alone, and neither touches the cell, so
/// repeated reads without an intervening write all observe the same thing —
/// and the two kinds of read agree with each other.
pub proof fn lemma_reads_idempotent<'a, T>(
    c: &LazyRef<'a, T>,
    r1: Option<&'a T>,
    r2: Option<&'a T>,
    b1: bool,
    b2: bool,
)
    requires
        read_of(r1) == c@,
        read_of(r2) == c@,
        b1 == (c@ is Some),
        b2 == (c@ is Some),
    ensures
        read_of(r1) == read_of(r2),
        b1 == b2,
        b1 == (read_of(r1) is Some),
{
}

/// Cell equality goes by contents, never by where the references point: two
/// cells are equal exactly when both are empty, or both hold values that are
/// themselves equal.
pub proof fn lemma_eq_compares_contents<'a, T: PartialEq>(a: &LazyRef<'a, T>, b: &LazyRef<'a, T>)
    ensures
        a.eq_spec(b) <==> (match (a@, b@) {
            (Some(x), Some(y)) => x.eq_spec(&y),
            (None, None) => true,
            _ => false,
        }),
{
}

} // verus!
