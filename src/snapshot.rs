use vstd::prelude::*;

verus! {

/// Two slots for the latest analysis result: the producer fills the staging
/// slot while readers see the published one, and `publish` swaps their roles
/// in one step, so a reader never sees a half-written result.
pub struct DoubleBuffer<T> {
    slots: Vec<T>,
    front: usize,
}

impl<T> DoubleBuffer<T> {
    /// Two slots, one of them published.
    pub closed spec fn wf(&self) -> bool {
        self.slots@.len() == 2 && self.front < 2
    }

    /// The value readers see.
    pub closed spec fn published(&self) -> T {
        self.slots@[self.front as int]
    }

    /// The value being prepared for the next publication.
    pub closed spec fn staged(&self) -> T {
        self.slots@[1 - self.front as int]
    }

    /// A buffer that publishes `initial` and stages `spare`.
    pub fn new(initial: T, spare: T) -> (r: Self)
        ensures
            r.wf(),
            r.published() == initial,
            r.staged() == spare,
    {
        let mut slots: Vec<T> = Vec::with_capacity(2);
        slots.push(initial);
        slots.push(spare);
        DoubleBuffer { slots, front: 0 }
    }

    /// The published value.
    pub fn latest(&self) -> (r: &T)
        requires
            self.wf(),
        ensures
            *r == self.published(),
    {
        &self.slots[self.front]
    }

    /// Replaces the staged value with `v`; readers still see the old one.
    pub fn stage(&mut self, v: T)
        requires
            old(self).wf(),
        ensures
            final(self).wf(),
            final(self).staged() == v,
            final(self).published() == old(self).published(),
    {
        let back: usize = 1 - self.front;
        self.slots.set(back, v);
    }

    /// Swaps `v` with the staged value: `v` is staged and the caller gets the
    /// previous staged value back, to reuse its storage for the next result.
    pub fn exchange_staged(&mut self, v: &mut T)
        requires
            old(self).wf(),
        ensures
            final(self).wf(),
            final(self).staged() == *old(v),
            *final(v) == old(self).staged(),
            final(self).published() == old(self).published(),
    {
        let back: usize = 1 - self.front;
        self.slots.set_and_swap(back, v);
    }

    /// Makes the staged value the published one; the previously published
    /// value becomes the staging slot, to be overwritten next.
    pub fn publish(&mut self)
        requires
            old(self).wf(),
        ensures
            final(self).wf(),
            final(self).published() == old(self).staged(),
            final(self).staged() == old(self).published(),
    {
        self.front = 1 - self.front;
    }

    /// Puts `v` in the staging slot and publishes it.
    pub fn stage_and_publish(&mut self, v: T)
        requires
            old(self).wf(),
        ensures
            final(self).wf(),
            final(self).published() == v,
            final(self).staged() == old(self).published(),
    {
        self.stage(v);
        self.publish();
    }

    /// Sets both slots to values given, `published` becoming visible at once.
    pub fn reset(&mut self, published: T, spare: T)
        requires
            old(self).wf(),
        ensures
            final(self).wf(),
            final(self).published() == published,
            final(self).staged() == spare,
    {
        self.slots.set(0, published);
        self.slots.set(1, spare);
        self.front = 0;
    }
}

} // verus!
