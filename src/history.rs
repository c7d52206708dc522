use vstd::prelude::*;

verus! {

/// An ordered, append-only log of values. Entries are only ever added at the
/// end; the one other change is an explicit clear that empties it.
pub struct History<T> {
    entries: Vec<T>,
}

impl<T> View for History<T> {
    type V = Seq<T>;

    closed spec fn view(&self) -> Seq<T> {
        self.entries@
    }
}

impl<T> History<T> {
    /// An empty log.
    pub fn new() -> (r: Self)
        ensures
            r@ == Seq::<T>::empty(),
    {
        History { entries: Vec::new() }
    }

    /// Appends `value` after every entry already recorded; the earlier entries
    /// keep their order, and the newest entry is `value`.
    pub fn push(&mut self, value: T)
        ensures
            final(self)@ == old(self)@.push(value),
            final(self)@.last() == value,
    {
        self.entries.push(value);
    }

    /// Empties the log, whatever it held before.
    pub fn clear(&mut self)
        ensures
            final(self)@ == Seq::<T>::empty(),
    {
        self.entries.clear();
    }

    /// A read-only view of the entries, oldest first.
    pub fn as_slice(&self) -> (r: &[T])
        ensures
            r@ == self@,
    {
        self.entries.as_slice()
    }

    /// The number of entries recorded.
    pub fn len(&self) -> (r: usize)
        ensures
            r == self@.len(),
    {
        self.entries.len()
    }
}

impl<T> Default for History<T> {
    fn default() -> (r: Self)
        ensures
            r@ == Seq::<T>::empty(),
    {
        History::new()
    }
}

} // verus!
