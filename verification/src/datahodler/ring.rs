use vstd::prelude::*;

verus! {

/// A fixed-capacity ring: once `size` values are in, each new value
/// overwrites the oldest one.
#[derive(Clone)]
pub struct Ring<E> {
    pub size: usize,
    cursor: usize,
    data: Vec<E>,
}

impl<E: Copy> View for Ring<E> {
    type V = Seq<E>;

    /// The held values, oldest first.
    closed spec fn view(&self) -> Seq<E> {
        self.data@.subrange(self.cursor as int, self.data@.len() as int) + self.data@.subrange(
            0,
            self.cursor as int,
        )
    }
}

impl<E: Copy> Ring<E> {
    /// How many values the ring holds at most.
    pub closed spec fn capacity(&self) -> int {
        self.size as int
    }

    /// The cursor marks the next write position: the end while the ring
    /// is still filling, the oldest value once it is full.
    pub closed spec fn wf(&self) -> bool {
        &&& 0 < self.size
        &&& self.data@.len() <= self.size
        &&& (self.data@.len() < self.size ==> self.cursor == self.data@.len())
        &&& (self.data@.len() == self.size ==> self.cursor < self.size)
    }

    /// What well-formedness guarantees every caller: the capacity is
    /// positive and the ring never holds more values than it.
    pub proof fn lemma_len_bounded(&self)
        requires
            self.wf(),
        ensures
            0 < self.capacity(),
            self@.len() <= self.capacity(),
    {
    }

    /// An empty ring that will hold at most `size` values.
    pub fn new(size: usize) -> (r: Ring<E>)
        requires
            size > 0,
        ensures
            r.wf(),
            r@ == Seq::<E>::empty(),
            r.capacity() == size,
    {
        let r = Ring { size, cursor: 0, data: Vec::new() };
        proof {
            assert(r@ =~= Seq::<E>::empty());
        }
        r
    }

    /// Where the next value will be written.
    fn cursor(&self) -> (c: usize)
        ensures
            c == self.cursor,
    {
        self.cursor
    }

    /// The held values, oldest first.
    pub fn get_all(&self) -> (r: Vec<E>)
        requires
            self.wf(),
        ensures
            r@ == self@,
    {
        let c = self.cursor;
        let mut r: Vec<E> = Vec::new();
        let mut k: usize = c;
        while k < self.data.len()
            invariant
                c <= k <= self.data@.len(),
                r@ == self.data@.subrange(c as int, k as int),
            decreases self.data@.len() - k,
        {
            r.push(self.data[k]);
            proof {
                assert(self.data@.subrange(c as int, k as int).push(self.data@[k as int])
                    =~= self.data@.subrange(c as int, k as int + 1));
            }
            k = k + 1;
        }
        let mut j: usize = 0;
        while j < c
            invariant
                j <= c <= self.data@.len(),
                r@ == self.data@.subrange(c as int, self.data@.len() as int)
                    + self.data@.subrange(0, j as int),
            decreases c - j,
        {
            r.push(self.data[j]);
            proof {
                assert((self.data@.subrange(c as int, self.data@.len() as int)
                    + self.data@.subrange(0, j as int)).push(self.data@[j as int]) =~= self.data@
                    .subrange(c as int, self.data@.len() as int) + self.data@.subrange(
                    0,
                    j as int + 1,
                ));
            }
            j = j + 1;
        }
        proof {
            assert(r@ =~= self@);
        }
        r
    }

    /// Appends a value, overwriting the oldest one once the ring is
    /// full.
    pub fn add(&mut self, value: E)
        requires
            old(self).wf(),
        ensures
            final(self).wf(),
            final(self).capacity() == old(self).capacity(),
            final(self)@ == if old(self)@.len() < old(self).capacity() {
                old(self)@.push(value)
            } else {
                old(self)@.drop_first().push(value)
            },
    {
        let c = self.cursor;
        if self.data.len() < self.size {
            self.data.push(value);
        } else {
            self.data.set(c, value);
        }
        self.cursor = if c + 1 == self.size {
            0
        } else {
            c + 1
        };
        proof {
            if old(self)@.len() < old(self).capacity() {
                assert(self@ =~= old(self)@.push(value));
            } else {
                assert(self@ =~= old(self)@.drop_first().push(value));
            }
        }
    }
}

} // verus!
