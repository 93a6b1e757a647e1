use vstd::prelude::*;

verus! {

/// The sequence `w` after one sample `s` arrives: every entry moves one place
/// toward the front, the oldest one is dropped and `s` takes the last place.
pub open spec fn shifted<T>(w: Seq<T>, s: T) -> Seq<T> {
    w.drop_first().push(s)
}

/// The last `n` entries of `w`.
pub open spec fn last_n<T>(w: Seq<T>, n: nat) -> Seq<T> {
    w.subrange(w.len() - n, w.len() as int)
}

/// A fixed-size window over the most recent samples of a stream.
pub struct SlidingWindow<T> {
    samples: Vec<T>,
}

impl<T: Copy> SlidingWindow<T> {
    /// The samples held, oldest first.
    pub closed spec fn view(&self) -> Seq<T> {
        self.samples@
    }

    /// A window of `n` entries, each set to `fill`.
    pub fn new(n: usize, fill: T) -> (r: Self)
        requires
            n > 0,
        ensures
            r@ == Seq::new(n as nat, |_i: int| fill),
    {
        let mut samples: Vec<T> = Vec::with_capacity(n);
        let mut i: usize = 0;
        while i < n
            invariant
                i <= n,
                samples@ == Seq::new(i as nat, |_j: int| fill),
            decreases n - i,
        {
            samples.push(fill);
            i = i + 1;
            assert(samples@ =~= Seq::new(i as nat, |_j: int| fill));
        }
        SlidingWindow { samples }
    }

    /// Number of entries in the window; it never changes.
    pub fn len(&self) -> (r: usize)
        ensures
            r == self@.len(),
    {
        self.samples.len()
    }

    /// The entry at position `i`, counted from the oldest.
    pub fn get(&self, i: usize) -> (r: T)
        requires
            i < self@.len(),
        ensures
            r == self@[i as int],
    {
        self.samples[i]
    }

    /// The samples held, oldest first.
    pub fn as_slice(&self) -> (r: &[T])
        ensures
            r@ == self@,
    {
        self.samples.as_slice()
    }

    /// Moves every entry one place toward the front, dropping the oldest, and
    /// writes `s` into the last place.
    pub fn append(&mut self, s: T)
        requires
            old(self)@.len() > 0,
        ensures
            final(self)@ == shifted(old(self)@, s),
            final(self)@.len() == old(self)@.len(),
            final(self)@[final(self)@.len() - 1] == s,
            forall|i: int|
                0 <= i < old(self)@.len() - 1 ==> #[trigger] final(self)@[i] == old(self)@[i + 1],
    {
        let n = self.samples.len();
        let ghost w = self.samples@;
        let mut i: usize = 0;
        while i + 1 < n
            invariant
                n == w.len(),
                n > 0,
                i < n,
                self.samples@.len() == n,
                forall|j: int| 0 <= j < i ==> #[trigger] self.samples@[j] == w[j + 1],
                forall|j: int| i <= j < n ==> #[trigger] self.samples@[j] == w[j],
            decreases n - i,
        {
            let next = self.samples[i + 1];
            self.samples.set(i, next);
            i = i + 1;
        }
        self.samples.set(n - 1, s);
        assert(self.samples@ =~= shifted(w, s));
    }

    /// Appends each sample of `batch` in order, as one `append` per sample.
    pub fn append_all(&mut self, batch: &[T])
        requires
            old(self)@.len() > 0,
        ensures
            final(self)@ == last_n(old(self)@ + batch@, old(self)@.len()),
    {
        let ghost w = self@;
        let mut k: usize = 0;
        while k < batch.len()
            invariant
                k <= batch@.len(),
                w.len() > 0,
                self@ == last_n(w + batch@.subrange(0, k as int), w.len()),
            decreases batch@.len() - k,
        {
            let ghost before = self@;
            self.append(batch[k]);
            proof {
                let p = w + batch@.subrange(0, k as int);
                let q = w + batch@.subrange(0, k + 1);
                assert(q =~= p.push(batch@[k as int]));
                assert(self@ =~= last_n(q, w.len()));
            }
            k = k + 1;
        }
        assert(batch@.subrange(0, batch@.len() as int) =~= batch@);
    }

    /// Feeds a batch of interleaved stereo frames (left, right, left, right, ...)
    /// into the window: each of the first `frames` frames is mixed down to one
    /// sample by `downmix` and appended, in arrival order.
    pub fn append_frames<F: Fn(T, T) -> T>(&mut self, data: &[T], frames: usize, downmix: F)
        requires
            old(self)@.len() > 0,
            2 * frames <= data@.len(),
            forall|l: T, r: T| #[trigger] downmix.requires((l, r)),
        ensures
            exists|mono: Seq<T>|
                {
                    &&& mono.len() == frames
                    &&& forall|i: int|
                        0 <= i < frames ==> downmix.ensures(
                            (data@[2 * i], data@[2 * i + 1]),
                            #[trigger] mono[i],
                        )
                    &&& final(self)@ == last_n(old(self)@ + mono, old(self)@.len())
                },
    {
        let ghost w = self@;
        let ghost mut mono: Seq<T> = Seq::empty();
        let total = data.len();
        let mut i: usize = 0;
        while i < frames
            invariant
                i <= frames,
                2 * frames <= data@.len(),
                total == data@.len(),
                w.len() > 0,
                forall|l: T, r: T| #[trigger] downmix.requires((l, r)),
                mono.len() == i,
                forall|j: int|
                    0 <= j < i ==> downmix.ensures(
                        (data@[2 * j], data@[2 * j + 1]),
                        #[trigger] mono[j],
                    ),
                self@ == last_n(w + mono, w.len()),
            decreases frames - i,
        {
            let left = data[2 * i];
            let right = data[2 * i + 1];
            let m = downmix(left, right);
            proof {
                let p = w + mono;
                mono = mono.push(m);
                assert(w + mono =~= p.push(m));
            }
            self.append(m);
            proof {
                assert(self@ =~= last_n(w + mono, w.len()));
            }
            i = i + 1;
        }
    }

    /// Sets every entry to `fill`, keeping the size.
    pub fn reset(&mut self, fill: T)
        ensures
            final(self)@ == Seq::new(old(self)@.len(), |_i: int| fill),
    {
        let n = self.samples.len();
        let mut i: usize = 0;
        while i < n
            invariant
                i <= n,
                self.samples@.len() == n,
                forall|j: int| 0 <= j < i ==> #[trigger] self.samples@[j] == fill,
            decreases n - i,
        {
            self.samples.set(i, fill);
            i = i + 1;
        }
        assert(self.samples@ =~= Seq::new(n as nat, |_i: int| fill));
    }
}

} // verus!
