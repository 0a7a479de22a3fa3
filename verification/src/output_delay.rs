//! Holding captured audio back so the keyboard lines up with what is heard.
//!
//! Bluetooth playback reaches the ear well after it passes through the render
//! stream the effect captures, so each sample is held for a fixed number of
//! samples before the analyser sees it. Nothing is released until the delay
//! has filled: the visuals start late by exactly the delay instead of racing
//! ahead and settling.

use vstd::prelude::*;
use std::collections::VecDeque;

verus! {

/// A first-in first-out delay of `samples` items.
pub struct OutputDelay<T> {
    pub queue: VecDeque<T>,
    pub samples: usize,
}

/// One push: the queue afterwards, and the item released, if any.
pub open spec fn delay_step<T>(queue: Seq<T>, samples: nat, sample: T) -> (Seq<T>, Option<T>) {
    if samples == 0 {
        (queue, Some(sample))
    } else {
        let pushed = queue.push(sample);
        if pushed.len() > samples {
            (pushed.drop_first(), Some(pushed[0]))
        } else {
            (pushed, None)
        }
    }
}

/// Pushing `inputs` in order into an empty delay: what is still held, and
/// everything released, in release order.
pub open spec fn run_delay<T>(samples: nat, inputs: Seq<T>) -> (Seq<T>, Seq<T>)
    decreases inputs.len(),
{
    if inputs.len() == 0 {
        (Seq::empty(), Seq::empty())
    } else {
        let (held, released) = run_delay(samples, inputs.drop_last());
        let (next, out) = delay_step(held, samples, inputs.last());
        (
            next,
            match out {
                Some(x) => released.push(x),
                None => released,
            },
        )
    }
}

/// How many of `count` pushed items have been released by a delay of
/// `samples`.
pub open spec fn released_count(count: int, samples: int) -> int {
    if count > samples { count - samples } else { 0 }
}

impl<T: Copy> OutputDelay<T> {
    pub fn new(samples: usize) -> (delay: Self)
        ensures
            delay.queue@ == Seq::<T>::empty(),
            delay.samples == samples,
    {
        OutputDelay { queue: VecDeque::new(), samples }
    }

    /// Appends one item, releasing the one pushed `samples` items ago once
    /// the delay has filled. With no delay the item passes straight through.
    pub fn push(&mut self, sample: T) -> (released: Option<T>)
        requires
            old(self).queue@.len() <= old(self).samples,
        ensures
            (final(self).queue@, released) == delay_step(old(self).queue@, old(self).samples as nat, sample),
            final(self).samples == old(self).samples,
            final(self).queue@.len() <= final(self).samples,
    {
        if self.samples == 0 {
            return Some(sample);
        }
        self.queue.push_back(sample);
        if self.queue.len() > self.samples {
            let released = self.queue.pop_front();
            proof {
                assert(self.queue@ =~= old(self).queue@.push(sample).drop_first());
            }
            released
        } else {
            None
        }
    }
}

/// Items leave a delay in the order they went in, each exactly `samples`
/// pushes after it arrived: after any run of pushes into an empty delay, the
/// released items are the inputs but the last `samples`, and those are what
/// it holds.
pub proof fn items_emerge_in_order_once_the_delay_has_filled<T>(samples: nat, inputs: Seq<T>)
    ensures
        run_delay(samples, inputs).1 == inputs.take(released_count(inputs.len() as int, samples as int)),
        run_delay(samples, inputs).0 == inputs.skip(released_count(inputs.len() as int, samples as int)),
    decreases inputs.len(),
{
    if inputs.len() > 0 {
        let rest = inputs.drop_last();
        items_emerge_in_order_once_the_delay_has_filled(samples, rest);
        let k = inputs.len() as int;
        let h = released_count(k - 1, samples as int);
        let (held, released) = run_delay(samples, rest);
        assert(held == rest.skip(h));
        assert(released == rest.take(h));
        if samples == 0 {
            assert(inputs.take(k) =~= rest.take(k - 1).push(inputs.last()));
            assert(inputs.skip(k) =~= Seq::<T>::empty());
            assert(rest.skip(k - 1) =~= Seq::<T>::empty());
        } else {
            let pushed = held.push(inputs.last());
            assert(pushed =~= inputs.skip(h));
            if k > samples {
                assert(pushed[0] == inputs[h]);
                assert(inputs.take(h + 1) =~= rest.take(h).push(inputs[h]));
                assert(pushed.drop_first() =~= inputs.skip(h + 1));
            } else {
                assert(h == 0);
                assert(inputs.take(0) =~= rest.take(0));
            }
        }
    }
}

} // verus!
