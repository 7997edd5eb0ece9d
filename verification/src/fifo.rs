//! Bounded ring of interleaved stereo PCM frames.
//!
//! One producer (the decoder worker) appends with `write`, one consumer (the
//! audio callback) drains with `read`; both tolerate short transfers and never
//! block.  The engine may `reset` it only while the device is stopped; the
//! facade enforces that ordering.

use vstd::arithmetic::div_mod::{lemma_mod_multiples_vanish, lemma_small_mod};
use vstd::prelude::*;

verus! {

/// A frame is one 32-bit signed sample per channel, left then right.
pub struct AudioFifo {
    buf: Vec<(i32, i32)>,
    head: usize,
    len: usize,
}

impl View for AudioFifo {
    type V = Seq<(i32, i32)>;

    /// The stored frames, oldest first.
    closed spec fn view(&self) -> Seq<(i32, i32)> {
        Seq::new(self.len as nat, |i: int| self.buf@[self.slot(i)])
    }
}

impl AudioFifo {
    /// Fixed capacity in frames, chosen at construction.
    pub closed spec fn cap(self) -> nat {
        self.buf@.len()
    }

    /// Storage index of the `i`-th stored frame.
    closed spec fn slot(self, i: int) -> int {
        (self.head + i) % (self.buf@.len() as int)
    }

    /// Internal well-formedness: constructors establish it and every
    /// operation preserves it.
    pub closed spec fn inv(self) -> bool {
        &&& self.buf@.len() > 0
        &&& self.head < self.buf@.len()
        &&& self.len <= self.buf@.len()
    }

    proof fn lemma_slot(self, i: int)
        requires
            self.inv(),
            0 <= i <= self.len,
        ensures
            self.slot(i) == if self.head + i < self.buf@.len() {
                self.head + i
            } else {
                self.head + i - self.buf@.len()
            },
            0 <= self.slot(i) < self.buf@.len(),
    {
        let c = self.buf@.len() as int;
        if self.head + i < c {
            lemma_small_mod((self.head + i) as nat, c as nat);
        } else {
            lemma_mod_multiples_vanish(1, self.head + i - c, c);
            lemma_small_mod((self.head + i - c) as nat, c as nat);
        }
    }

    /// An empty ring holding exactly `capacity` frames.
    pub fn new(capacity: usize) -> (f: AudioFifo)
        requires
            capacity >= 1,
        ensures
            f@ == Seq::<(i32, i32)>::empty(),
            f.cap() == capacity,
            f.inv(),
    {
        let f = AudioFifo { buf: vec![(0i32, 0i32); capacity], head: 0, len: 0 };
        proof {
            assert(f@ =~= Seq::<(i32, i32)>::empty());
        }
        f
    }

    /// Number of frames currently stored.
    pub fn size(&self) -> (r: usize)
        ensures
            r == self@.len(),
    {
        self.len
    }

    /// Fixed capacity in frames.
    pub fn capacity(&self) -> (r: usize)
        ensures
            r == self.cap(),
    {
        self.buf.len()
    }

    /// Discard every stored frame.  Only legal while the device is stopped;
    /// the engine facade serializes that.
    pub fn reset(&mut self)
        requires
            old(self).inv(),
        ensures
            final(self)@ == Seq::<(i32, i32)>::empty(),
            final(self).cap() == old(self).cap(),
            final(self).inv(),
    {
        self.len = 0;
        proof {
            assert(self@ =~= Seq::<(i32, i32)>::empty());
        }
    }

    fn push_frame(&mut self, x: (i32, i32))
        requires
            old(self).inv(),
            old(self)@.len() < old(self).cap(),
        ensures
            final(self)@ == old(self)@.push(x),
            final(self).cap() == old(self).cap(),
            final(self).inv(),
    {
        let cap = self.buf.len();
        let idx = if self.head < cap - self.len {
            self.head + self.len
        } else {
            self.head - (cap - self.len)
        };
        proof {
            old(self).lemma_slot(old(self).len as int);
        }
        self.buf.set(idx, x);
        self.len = self.len + 1;
        proof {
            assert forall|j: int| 0 <= j < self@.len() implies self@[j] == old(self)@.push(x)[j] by {
                old(self).lemma_slot(j);
                self.lemma_slot(j);
            }
            assert(self@ =~= old(self)@.push(x));
        }
    }

    fn pop_frame(&mut self) -> (r: (i32, i32))
        requires
            old(self).inv(),
            old(self)@.len() > 0,
        ensures
            r == old(self)@[0],
            final(self)@ == old(self)@.skip(1),
            final(self).cap() == old(self).cap(),
            final(self).inv(),
    {
        proof {
            old(self).lemma_slot(0);
        }
        let x = self.buf[self.head];
        let cap = self.buf.len();
        self.head = if self.head + 1 < cap {
            self.head + 1
        } else {
            0
        };
        self.len = self.len - 1;
        proof {
            assert forall|j: int| 0 <= j < self@.len() implies self@[j] == old(self)@.skip(1)[j] by {
                old(self).lemma_slot(j + 1);
                self.lemma_slot(j);
            }
            assert(self@ =~= old(self)@.skip(1));
        }
        x
    }

    /// Append up to `src.len()` frames; a short write happens exactly when
    /// the ring runs out of room.
    pub fn write(&mut self, src: &Vec<(i32, i32)>) -> (written: usize)
        requires
            old(self).inv(),
        ensures
            written == vstd::math::min(
                src@.len() as int,
                old(self).cap() as int - old(self)@.len() as int,
            ),
            final(self)@ == old(self)@ + src@.take(written as int),
            final(self).cap() == old(self).cap(),
            final(self).inv(),
    {
        proof {
            assert(old(self)@ + src@.take(0) =~= old(self)@);
        }
        let mut i: usize = 0;
        while i < src.len() && self.len < self.buf.len()
            invariant
                i <= src@.len(),
                self.cap() == old(self).cap(),
                self@.len() == old(self)@.len() + i,
                self@.len() <= self.cap(),
                self@ == old(self)@ + src@.take(i as int),
                self.inv(),
            decreases src@.len() - i,
        {
            self.push_frame(src[i]);
            proof {
                assert(src@.take(i as int).push(src@[i as int]) =~= src@.take(i + 1));
                assert(self@ =~= old(self)@ + src@.take(i + 1));
            }
            i = i + 1;
        }
        i
    }

    /// Pop up to `n` frames, oldest first; a short read happens exactly when
    /// the ring holds fewer than `n` frames.
    pub fn read(&mut self, n: usize) -> (out: Vec<(i32, i32)>)
        requires
            old(self).inv(),
        ensures
            out@ == old(self)@.take(vstd::math::min(n as int, old(self)@.len() as int)),
            final(self)@ == old(self)@.skip(
                vstd::math::min(n as int, old(self)@.len() as int),
            ),
            final(self).cap() == old(self).cap(),
            final(self).inv(),
    {
        let mut out: Vec<(i32, i32)> = Vec::new();
        proof {
            assert(out@ =~= old(self)@.take(0));
            assert(self@ =~= old(self)@.skip(0));
        }
        while out.len() < n && self.len > 0
            invariant
                out@.len() <= n,
                out@.len() <= old(self)@.len(),
                out@ == old(self)@.take(out@.len() as int),
                self@ == old(self)@.skip(out@.len() as int),
                self.cap() == old(self).cap(),
                self.inv(),
            decreases n - out@.len(),
        {
            let ghost k = out@.len() as int;
            let x = self.pop_frame();
            out.push(x);
            proof {
                assert(old(self)@.take(k).push(old(self)@.skip(k)[0]) =~= old(self)@.take(k + 1));
                assert(old(self)@.skip(k).skip(1) =~= old(self)@.skip(k + 1));
            }
        }
        out
    }
}

} // verus!
