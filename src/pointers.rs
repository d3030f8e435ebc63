//! Values behind wrappers: a plain generic wrapper, one that dereferences to
//! its value, and a cell whose borrows are checked as the program runs.
use vstd::prelude::*;

verus! {

/// A value held in a plain struct.
pub struct RegularStruct<T> {
    pub value: T,
}

impl<T> RegularStruct<T> {
    pub fn new(value: T) -> (r: Self)
        ensures
            r.value == value,
    {
        RegularStruct { value }
    }
}

/// A value held in a struct that dereferences to it, as `Box` does.
pub struct BoxedValue<T> {
    value: T,
}

impl<T> BoxedValue<T> {
    pub closed spec fn view_value(&self) -> T {
        self.value
    }

    pub fn new(value: T) -> (r: Self)
        ensures
            r.view_value() == value,
    {
        BoxedValue { value }
    }

    /// The held value.
    pub fn get(&self) -> (r: &T)
        ensures
            *r == self.view_value(),
    {
        &self.value
    }
}

impl<T> core::ops::Deref for BoxedValue<T> {
    type Target = T;

    fn deref(&self) -> &T {
        &self.value
    }
}

/// A boxed age read through its wrapper, as a `&u8` parameter would receive it.
pub fn implicit_deref() -> (r: u8)
    ensures
        r == 22,
{
    let boxed = BoxedValue::new(22u8);
    *boxed.get()
}

/// A person whose age can be counted up.
pub struct Person {
    pub name: String,
    pub age: u8,
}

impl Person {
    /// One year older.
    pub fn increment_age(&mut self)
        requires
            old(self).age < 255,
        ensures
            final(self).age == old(self).age + 1,
            final(self).name == old(self).name,
    {
        self.age = self.age + 1;
    }
}

/// The borrow a cell has handed out.
#[derive(PartialEq, Eq, Structural, Debug)]
pub enum BorrowState {
    Unborrowed,
    /// This many shared borrows are alive.
    Shared(u64),
    /// One mutable borrow is alive.
    Exclusive,
}

/// A second borrow that would overlap a mutable one, or a mutable borrow that
/// would overlap any other.
#[derive(PartialEq, Eq, Structural, Debug)]
pub struct BorrowConflict;

/// A value that is exclusively mutable at any instant: each borrow is taken and
/// given back explicitly, and one that would overlap a mutable borrow fails.
pub struct ExclusiveCell<T> {
    value: T,
    state: BorrowState,
}

impl<T> ExclusiveCell<T> {
    pub closed spec fn value(&self) -> T {
        self.value
    }

    pub closed spec fn borrow_state(&self) -> BorrowState {
        self.state
    }

    pub fn new(value: T) -> (r: Self)
        ensures
            r.value() == value,
            r.borrow_state() == BorrowState::Unborrowed,
    {
        ExclusiveCell { value, state: BorrowState::Unborrowed }
    }

    /// Takes a shared borrow; fails while a mutable one is alive.
    pub fn try_borrow(&mut self) -> (r: Result<(), BorrowConflict>)
        requires
            !(old(self).borrow_state() matches BorrowState::Shared(n) && n == u64::MAX),
        ensures
            final(self).value() == old(self).value(),
            old(self).borrow_state() == BorrowState::Exclusive <==> r is Err,
            r is Err ==> final(self).borrow_state() == old(self).borrow_state(),
            old(self).borrow_state() == BorrowState::Unborrowed ==> final(self).borrow_state()
                == BorrowState::Shared(1),
            old(self).borrow_state() matches BorrowState::Shared(n) ==> final(self).borrow_state()
                == BorrowState::Shared((n + 1) as u64),
    {
        match self.state {
            BorrowState::Unborrowed => {
                self.state = BorrowState::Shared(1);
                Ok(())
            },
            BorrowState::Shared(n) => {
                self.state = BorrowState::Shared(n + 1);
                Ok(())
            },
            BorrowState::Exclusive => Err(BorrowConflict),
        }
    }

    /// Takes the mutable borrow; fails while any other borrow is alive.
    pub fn try_borrow_mut(&mut self) -> (r: Result<(), BorrowConflict>)
        ensures
            final(self).value() == old(self).value(),
            old(self).borrow_state() == BorrowState::Unborrowed <==> r is Ok,
            r is Ok ==> final(self).borrow_state() == BorrowState::Exclusive,
            r is Err ==> final(self).borrow_state() == old(self).borrow_state(),
    {
        match self.state {
            BorrowState::Unborrowed => {
                self.state = BorrowState::Exclusive;
                Ok(())
            },
            _ => Err(BorrowConflict),
        }
    }

    /// Gives one shared borrow back.
    pub fn release_shared(&mut self)
        requires
            old(self).borrow_state() is Shared,
        ensures
            final(self).value() == old(self).value(),
            old(self).borrow_state() == BorrowState::Shared(1) ==> final(self).borrow_state()
                == BorrowState::Unborrowed,
            old(self).borrow_state() matches BorrowState::Shared(n) ==> (n > 1
                ==> final(self).borrow_state() == BorrowState::Shared((n - 1) as u64)),
    {
        if let BorrowState::Shared(n) = self.state {
            if n <= 1 {
                self.state = BorrowState::Unborrowed;
            } else {
                self.state = BorrowState::Shared(n - 1);
            }
        }
    }

    /// Gives the mutable borrow back.
    pub fn release_mut(&mut self)
        requires
            old(self).borrow_state() == BorrowState::Exclusive,
        ensures
            final(self).value() == old(self).value(),
            final(self).borrow_state() == BorrowState::Unborrowed,
    {
        self.state = BorrowState::Unborrowed;
    }

    /// Reads the value under a borrow.
    pub fn get(&self) -> (r: &T)
        requires
            self.borrow_state() != BorrowState::Unborrowed,
        ensures
            *r == self.value(),
    {
        &self.value
    }

    /// Replaces the value under the mutable borrow.
    pub fn set(&mut self, value: T)
        requires
            old(self).borrow_state() == BorrowState::Exclusive,
        ensures
            final(self).value() == value,
            final(self).borrow_state() == BorrowState::Exclusive,
    {
        self.value = value;
    }
}

/// A mutable borrow of `[10, 20, 30]` is taken; a shared borrow asked for
/// while it is alive fails, and the value is left as it was.
pub fn ref_cell_testing() -> (r: Result<usize, BorrowConflict>)
    ensures
        r == Err::<usize, BorrowConflict>(BorrowConflict),
{
    let mut cell = ExclusiveCell::new(vec![10i32, 20, 30]);
    let first = cell.try_borrow_mut();
    assert(first is Ok);
    match cell.try_borrow() {
        Ok(()) => {
            let len = cell.get().len();
            Ok(len)
        },
        Err(e) => Err(e),
    }
}

} // verus!
