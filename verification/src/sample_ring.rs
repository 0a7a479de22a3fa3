//! The circular buffer of the most recent audio samples the equaliser
//! analyses.
//!
//! It holds the last `MAX_WINDOW` samples, the longest window any filter asks
//! for. A filter reads a window that ended some number of samples before the
//! newest one, which lets the onset detector walk the stream in fixed hops
//! and catch up on any it missed.

use vstd::prelude::*;

verus! {

/// Samples the ring holds.
pub const MAX_WINDOW: usize = 4096;

/// The ring, with the history of every sample ever pushed (the ring starts
/// out holding `MAX_WINDOW` copies of a silent sample).
pub struct SampleRing<T> {
    pub buffer: Vec<T>,
    pub write: usize,
    /// Samples pushed so far.
    pub written: u64,
    pub history: Ghost<Seq<T>>,
}

/// The slot holding the sample pushed `back` samples before the newest.
pub open spec fn slot(write: int, back: int) -> int {
    (write + MAX_WINDOW - 1 - back) % (MAX_WINDOW as int)
}

/// The sample a window read returns: index `index` of a `window` that ended
/// `ago` samples before the newest, which is the sample pushed
/// `ago + window - 1 - index` samples before the newest, counted modulo the
/// ring's length (older samples are overwritten).
pub open spec fn samples_back(ago: int, window: int, index: int) -> int {
    (ago + window - 1 - index) % (MAX_WINDOW as int)
}

impl<T: Copy> SampleRing<T> {
    /// The ring holds the last `MAX_WINDOW` samples of its history.
    pub open spec fn wf(&self) -> bool {
        let h = self.history@;
        &&& self.buffer@.len() == MAX_WINDOW
        &&& self.write < MAX_WINDOW
        &&& h.len() >= MAX_WINDOW
        &&& self.written == h.len() - MAX_WINDOW
        &&& forall|back: int|
            0 <= back < MAX_WINDOW ==> #[trigger] self.buffer@[slot(self.write as int, back)] == h[h.len()
                - 1 - back]
    }

    /// A ring full of `silence`.
    pub fn new(silence: T) -> (ring: Self)
        ensures
            ring.wf(),
            ring.written == 0,
            ring.history@ == Seq::new(MAX_WINDOW as nat, |i: int| silence),
    {
        let mut buffer: Vec<T> = Vec::new();
        let mut i: usize = 0;
        while i < MAX_WINDOW
            invariant
                i <= MAX_WINDOW,
                buffer@.len() == i,
                forall|k: int| 0 <= k < i ==> buffer@[k] == silence,
            decreases MAX_WINDOW - i,
        {
            buffer.push(silence);
            i += 1;
        }
        let ghost history = Seq::new(MAX_WINDOW as nat, |i: int| silence);
        let ring = SampleRing { buffer, write: 0, written: 0, history: Ghost(history) };
        assert forall|back: int| 0 <= back < MAX_WINDOW implies #[trigger] ring.buffer@[slot(0, back)]
            == history[history.len() - 1 - back] by {
            assert(0 <= slot(0, back) < MAX_WINDOW);
        }
        ring
    }

    /// Appends a sample, overwriting the oldest.
    pub fn push(&mut self, sample: T)
        requires
            old(self).wf(),
            old(self).written < u64::MAX,
        ensures
            final(self).wf(),
            final(self).history@ == old(self).history@.push(sample),
            final(self).written == old(self).written + 1,
    {
        let ghost old_write = self.write as int;
        let ghost old_buffer = self.buffer@;
        let ghost h = self.history@;
        self.buffer.set(self.write, sample);
        self.write = (self.write + 1) % MAX_WINDOW;
        self.written = self.written + 1;
        self.history = Ghost(h.push(sample));
        proof {
            let w = self.write as int;
            let h2 = self.history@;
            assert forall|back: int| 0 <= back < MAX_WINDOW implies #[trigger] self.buffer@[slot(w, back)]
                == h2[h2.len() - 1 - back] by {
                if back == 0 {
                    assert(slot(w, 0) == old_write);
                } else {
                    assert(slot(w, back) == slot(old_write, back - 1));
                    assert(slot(w, back) != old_write);
                    assert(old_buffer[slot(old_write, back - 1)] == h[h.len() - 1 - (back - 1)]);
                }
            }
        }
    }

    /// Appends up to a ring's worth of silence.
    pub fn push_silence(&mut self, frames: usize, silence: T)
        requires
            old(self).wf(),
            old(self).written + MAX_WINDOW <= u64::MAX,
        ensures
            final(self).wf(),
            final(self).history@ == old(self).history@ + Seq::new(
                (if frames < MAX_WINDOW { frames } else { MAX_WINDOW }) as nat,
                |i: int| silence,
            ),
    {
        let count = if frames < MAX_WINDOW { frames } else { MAX_WINDOW };
        let mut i: usize = 0;
        while i < count
            invariant
                i <= count,
                count <= MAX_WINDOW,
                self.wf(),
                self.written == old(self).written + i,
                old(self).written + MAX_WINDOW <= u64::MAX,
                self.history@ == old(self).history@ + Seq::new(i as nat, |k: int| silence),
            decreases count - i,
        {
            self.push(silence);
            i += 1;
            assert(self.history@ =~= old(self).history@ + Seq::new(i as nat, |k: int| silence));
        }
    }

    /// Samples pushed so far.
    pub fn written(&self) -> (count: u64)
        ensures
            count == self.written,
    {
        self.written
    }

    /// Sample `index` of a `window` that ended `ago` samples before the newest
    /// one, oldest first.
    pub fn get_ending(&self, ago: usize, window: usize, index: usize) -> (sample: T)
        requires
            self.wf(),
            window <= MAX_WINDOW,
            index < window,
        ensures
            sample == self.history@[self.history@.len() - 1 - samples_back(ago as int, window as int, index as int)],
            ago + window <= MAX_WINDOW ==> sample == self.history@[self.history@.len() - ago - window + index],
    {
        let end = (self.write + MAX_WINDOW - ago % MAX_WINDOW) % MAX_WINDOW;
        let start = (end + MAX_WINDOW - window) % MAX_WINDOW;
        let at = (start + index) % MAX_WINDOW;
        proof {
            let back = samples_back(ago as int, window as int, index as int);
            lemma_ring_position(self.write as int, ago as int, window as int, index as int);
            assert(at == slot(self.write as int, back));
        }
        self.buffer[at]
    }
}

/// The slot arithmetic of a window read lands on the slot of the sample the
/// read is meant to return.
proof fn lemma_ring_position(write: int, ago: int, window: int, index: int)
    requires
        0 <= write < MAX_WINDOW,
        0 <= ago,
        0 <= index < window <= MAX_WINDOW,
    ensures
        ({
            let m = MAX_WINDOW as int;
            let end = (write + m - ago % m) % m;
            let start = (end + m - window) % m;
            (start + index) % m == slot(write, samples_back(ago, window, index))
        }),
{
    let m = MAX_WINDOW as int;
    let a = ago % m;
    let end = (write + m - a) % m;
    let start = (end + m - window) % m;
    let back = samples_back(ago, window, index);
    // Every quantity is the same residue of `write - ago - window + index`.
    assert(ago == (ago / m) * m + a) by (nonlinear_arith)
        requires
            m > 0,
            a == ago % m,
    ;
    assert((ago + window - 1 - index) == (ago / m) * m + (a + window - 1 - index));
    assert(back == (a + window - 1 - index) % m) by {
        vstd::arithmetic::div_mod::lemma_mod_add_multiples_vanish(a + window - 1 - index, m);
        vstd::arithmetic::div_mod::lemma_mod_multiples_vanish(ago / m, a + window - 1 - index, m);
    }
    let r = a + window - 1 - index;
    assert(0 <= r < 2 * m);
    // Reduce each step to a value in range.
    assert(end == if write >= a { write - a } else { write + m - a });
    assert(start == if end >= window { end - window } else { end + m - window });
    assert(back == if r < m { r } else { r - m });
    assert(slot(write, back) == (write + m - 1 - back) % m);
}

} // verus!
