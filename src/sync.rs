use vstd::prelude::*;

verus! {

/// Counter for a single owner: it holds the identifier that the next `pull`
/// hands out.
///
/// Overflow policy: a pull past the backing integer's maximum is ruled out by
/// the precondition of `pull` (the counter aborts rather than wraps).
#[derive(Debug, Clone)]
pub struct AutoIncrement<T>(T);

impl<T> AutoIncrement<T> {
    /// The identifier that the next `pull` returns.
    pub closed spec fn current(&self) -> T {
        self.0
    }

    /// The identifier that the next `pull` returns.
    pub fn peek(&self) -> (r: &T)
        ensures
            *r == self.current(),
    {
        &self.0
    }

    /// Gives back the identifier that the next `pull` would return.
    pub fn into_inner(self) -> (r: T)
        ensures
            r == self.current(),
    {
        self.0
    }
}

impl<T: Incremental> AutoIncrement<T> {
    /// Hands out the held identifier and replaces it by its successor.
    pub fn pull(&mut self) -> (r: T)
        requires
            T::can_advance(old(self).current()),
        ensures
            r == old(self).current(),
            final(self).current() == T::spec_next(old(self).current()),
    {
        let mut held = T::get_next(&self.0);
        core::mem::swap(&mut self.0, &mut held);
        held
    }

    /// A counter whose first `pull` returns `initial_value`.
    pub fn init_with(initial_value: T) -> (r: Self)
        ensures
            r.current() == initial_value,
    {
        AutoIncrement(initial_value)
    }
}

/// An identifier type that a single-owner counter can advance.
pub trait Incremental: Sized {
    /// The first identifier of a fresh sequence.
    spec fn spec_initial() -> Self;

    /// The identifier that follows `current`.
    spec fn spec_next(current: Self) -> Self;

    /// Whether `current` has a successor within the backing integer's range.
    spec fn can_advance(current: Self) -> bool;

    fn initial() -> (r: Self)
        ensures
            r == Self::spec_initial(),
    ;

    fn get_next(current: &Self) -> (r: Self)
        requires
            Self::can_advance(*current),
        ensures
            r == Self::spec_next(*current),
    ;

    /// A counter that starts at the configured initial identifier.
    fn init() -> (r: AutoIncrement<Self>)
        ensures
            r.current() == Self::spec_initial(),
    {
        AutoIncrement(Self::initial())
    }

    /// A counter that starts at `value`.
    fn init_with(value: Self) -> (r: AutoIncrement<Self>)
        ensures
            r.current() == value,
    {
        AutoIncrement(value)
    }

    /// A counter that starts at `self`.
    fn init_from(self) -> (r: AutoIncrement<Self>)
        ensures
            r.current() == self,
    {
        Self::init_with(self)
    }
}

/// The identifier that a fresh counter hands out at its `k`-th pull,
/// counting from zero.
pub open spec fn nth_pulled<T: Incremental>(k: nat) -> T
    decreases k,
{
    if k == 0 {
        T::spec_initial()
    } else {
        T::spec_next(nth_pulled::<T>((k - 1) as nat))
    }
}

/// Successive pulls from a fresh counter walk the sequence: where `states`
/// are the counter's values before each pull and after the last, and each
/// step is one `pull` returning `pulled[i]`, the `i`-th value handed out is
/// `nth_pulled(i)`.
pub proof fn lemma_pulls_walk_sequence<T: Incremental>(states: Seq<AutoIncrement<T>>, pulled: Seq<T>)
    requires
        states.len() == pulled.len() + 1,
        states[0].current() == T::spec_initial(),
        forall|i: int|
            0 <= i < pulled.len() ==> #[trigger] pulled[i] == states[i].current()
                && states[i + 1].current() == T::spec_next(states[i].current()),
    ensures
        forall|i: int| 0 <= i < pulled.len() ==> #[trigger] pulled[i] == nth_pulled::<T>(i as nat),
{
    assert forall|i: int| 0 <= i < states.len() implies states[i].current() == nth_pulled::<T>(i as nat) by {
        lemma_state_is_nth(states, pulled, i);
    }
    assert forall|i: int| 0 <= i < pulled.len() implies #[trigger] pulled[i] == nth_pulled::<T>(i as nat) by {
        assert(pulled[i] == states[i].current());
    }
}

proof fn lemma_state_is_nth<T: Incremental>(states: Seq<AutoIncrement<T>>, pulled: Seq<T>, i: int)
    requires
        states.len() == pulled.len() + 1,
        states[0].current() == T::spec_initial(),
        forall|i: int|
            0 <= i < pulled.len() ==> #[trigger] pulled[i] == states[i].current()
                && states[i + 1].current() == T::spec_next(states[i].current()),
        0 <= i < states.len(),
    ensures
        states[i].current() == nth_pulled::<T>(i as nat),
    decreases i,
{
    if i > 0 {
        lemma_state_is_nth(states, pulled, i - 1);
        assert(pulled[i - 1] == states[i - 1].current());
    }
}

} // verus!
