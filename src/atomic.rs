use vstd::prelude::*;

verus! {

/// Counter shared by any number of callers: it owns an atomic cell that holds
/// the raw value of the identifier that the next `pull` hands out.
///
/// Overflow policy: the cell's fetch-and-add wraps around past the backing
/// integer's maximum.
#[derive(Debug)]
pub struct AsyncIncrement<T: AsyncIncremental>(T::Atomic);

impl<T: AsyncIncremental> AsyncIncrement<T> {
    /// The counter's atomic cell.
    pub closed spec fn cell(&self) -> T::Atomic {
        self.0
    }

    /// Takes the next identifier by one fetch-and-increment of the shared cell.
    /// Which identifier comes back depends on the other callers, so nothing is
    /// promised of it beyond its type.
    pub fn pull(&self) -> (r: T) {
        T::get_next(&self.0)
    }

    /// A counter over an existing cell, such as one restored from storage.
    pub fn from_cell(cell: T::Atomic) -> (r: Self)
        ensures
            r.cell() == cell,
    {
        AsyncIncrement(cell)
    }

    /// Gives back the counter's cell, such as for storage.
    pub fn into_cell(self) -> (r: T::Atomic)
        ensures
            r == self.cell(),
    {
        self.0
    }

    /// A counter whose cell holds the raw value of `initial_value`.
    pub fn init_with(initial_value: T) -> (r: Self) {
        AsyncIncrement(T::into_atomic(initial_value))
    }
}

/// An identifier type that a shared counter can advance atomically.
pub trait AsyncIncremental: Sized {
    /// The atomic cell that holds the raw backing integer.
    type Atomic: Atomic;

    /// The first identifier of a fresh sequence.
    spec fn spec_first() -> Self;

    fn initial() -> (r: Self)
        ensures
            r == Self::spec_first(),
    ;

    /// Fetch-and-increment on `atomic`, returning the identifier built from the
    /// value that the cell held before.
    fn get_next(atomic: &Self::Atomic) -> Self;

    /// A fresh cell holding the raw value of `value`.
    fn into_atomic(value: Self) -> Self::Atomic;

    /// A counter that starts at the configured initial identifier.
    fn init() -> (r: AsyncIncrement<Self>) {
        Self::init_with(Self::initial())
    }

    /// A counter that starts at `value`.
    fn init_with(value: Self) -> (r: AsyncIncrement<Self>) {
        AsyncIncrement(Self::into_atomic(value))
    }

    /// A counter that starts at `self`.
    fn init_from(self) -> (r: AsyncIncrement<Self>) {
        Self::init_with(self)
    }
}

/// An atomic cell over a plain integer, advanced with the strongest ordering.
pub trait Atomic: Sized {
    type Inner: Copy;

    fn new(initial_value: Self::Inner) -> Self;

    /// Adds `step` and returns the value held before.
    fn next(&self, step: Self::Inner) -> Self::Inner;
}

impl Atomic for std::sync::atomic::AtomicU8 {
    type Inner = u8;

    fn new(initial_value: u8) -> Self {
        std::sync::atomic::AtomicU8::new(initial_value)
    }

    fn next(&self, step: u8) -> u8 {
        self.fetch_add(step, std::sync::atomic::Ordering::SeqCst)
    }
}

impl Atomic for std::sync::atomic::AtomicU16 {
    type Inner = u16;

    fn new(initial_value: u16) -> Self {
        std::sync::atomic::AtomicU16::new(initial_value)
    }

    fn next(&self, step: u16) -> u16 {
        self.fetch_add(step, std::sync::atomic::Ordering::SeqCst)
    }
}

impl Atomic for std::sync::atomic::AtomicU32 {
    type Inner = u32;

    fn new(initial_value: u32) -> Self {
        std::sync::atomic::AtomicU32::new(initial_value)
    }

    fn next(&self, step: u32) -> u32 {
        self.fetch_add(step, std::sync::atomic::Ordering::SeqCst)
    }
}

impl Atomic for std::sync::atomic::AtomicU64 {
    type Inner = u64;

    fn new(initial_value: u64) -> Self {
        std::sync::atomic::AtomicU64::new(initial_value)
    }

    fn next(&self, step: u64) -> u64 {
        self.fetch_add(step, std::sync::atomic::Ordering::SeqCst)
    }
}

impl Atomic for std::sync::atomic::AtomicUsize {
    type Inner = usize;

    fn new(initial_value: usize) -> Self {
        std::sync::atomic::AtomicUsize::new(initial_value)
    }

    fn next(&self, step: usize) -> usize {
        self.fetch_add(step, std::sync::atomic::Ordering::SeqCst)
    }
}

} // verus!
