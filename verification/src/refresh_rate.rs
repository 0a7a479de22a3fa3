//! Cycling the primary display's refresh rate.

use vstd::prelude::*;

use crate::error::AppError;

verus! {

/// Strictly increasing, so no rate appears twice.
pub open spec fn strictly_increasing(s: Seq<u32>) -> bool {
    forall|i: int, j: int| 0 <= i < j < s.len() ==> s[i] < s[j]
}

/// The index of the first rate above `current`, if there is one.
pub open spec fn first_above(rates: Seq<u32>, current: u32) -> Option<int>
    decreases rates.len(),
{
    if rates.len() == 0 {
        None
    } else {
        match first_above(rates.drop_last(), current) {
            Some(i) => Some(i),
            None => if rates.last() > current {
                Some(rates.len() - 1)
            } else {
                None
            },
        }
    }
}

/// The index of the last rate below `current`, if there is one.
pub open spec fn last_below(rates: Seq<u32>, current: u32) -> Option<int>
    decreases rates.len(),
{
    if rates.len() == 0 {
        None
    } else if rates.last() < current {
        Some(rates.len() - 1)
    } else {
        last_below(rates.drop_last(), current)
    }
}

/// The rate after `current` in list order, wrapping to the first; in reverse,
/// the rate before it, wrapping to the last. No rates, no choice.
pub open spec fn spec_next_rate(rates: Seq<u32>, current: u32, reverse: bool) -> Option<u32> {
    if rates.len() == 0 {
        None
    } else if reverse {
        match last_below(rates, current) {
            Some(i) => Some(rates[i]),
            None => Some(rates.last()),
        }
    } else {
        match first_above(rates, current) {
            Some(i) => Some(rates[i]),
            None => Some(rates[0]),
        }
    }
}

proof fn lemma_first_above(rates: Seq<u32>, current: u32)
    ensures
        first_above(rates, current) matches Some(i) ==> 0 <= i < rates.len() && rates[i] > current
            && forall|j: int| 0 <= j < i ==> rates[j] <= current,
        first_above(rates, current) is None ==> forall|j: int|
            0 <= j < rates.len() ==> rates[j] <= current,
    decreases rates.len(),
{
    if rates.len() > 0 {
        let init = rates.drop_last();
        lemma_first_above(init, current);
        assert forall|j: int| 0 <= j < init.len() implies init[j] == rates[j] by {}
    }
}

/// Picks the next refresh rate to switch to. With shift held the cycle runs
/// backwards.
pub fn choose_next_rate(supported: &[u32], current: u32, reverse: bool) -> (next: Option<u32>)
    ensures
        next == spec_next_rate(supported@, current, reverse),
{
    let n = supported.len();
    if n == 0 {
        return None;
    }
    if reverse {
        let mut i = n;
        assert(supported@.take(n as int) =~= supported@);
        while i > 0
            invariant
                i <= n,
                n == supported@.len(),
                n > 0,
                reverse,
                last_below(supported@, current) == last_below(supported@.take(i as int), current),
            decreases i,
        {
            proof {
                assert(supported@.take(i as int).drop_last() =~= supported@.take(i - 1));
            }
            if supported[i - 1] < current {
                assert(supported@.take(i as int).last() == supported@[i - 1]);
                assert(last_below(supported@.take(i as int), current) == Some(i as int - 1));
                return Some(supported[i - 1]);
            }
            i = i - 1;
        }
        Some(supported[n - 1])
    } else {
        let mut i: usize = 0;
        while i < n
            invariant
                i <= n,
                n == supported@.len(),
                !reverse,
                forall|j: int| 0 <= j < i ==> supported@[j] <= current,
            decreases n - i,
        {
            if supported[i] > current {
                proof {
                    lemma_first_above(supported@, current);
                    if let Some(k) = first_above(supported@, current) {
                        if k < i {
                            assert(supported@[k] <= current);
                        }
                        if k > i {
                            assert(supported@[i as int] <= current);
                        }
                    }
                }
                return Some(supported[i]);
            }
            i = i + 1;
        }
        proof {
            lemma_first_above(supported@, current);
        }
        Some(supported[0])
    }
}

/// Inserts a rate into a strictly increasing list, keeping it so.
fn insert_rate(rates: &mut Vec<u32>, rate: u32)
    requires
        strictly_increasing(old(rates)@),
    ensures
        strictly_increasing(final(rates)@),
        forall|x: u32| final(rates)@.contains(x) <==> (old(rates)@.contains(x) || x == rate),
{
    let mut i: usize = 0;
    while i < rates.len() && rates[i] < rate
        invariant
            i <= rates.len(),
            rates@ == old(rates)@,
            strictly_increasing(rates@),
            forall|j: int| 0 <= j < i ==> rates@[j] < rate,
        decreases rates.len() - i,
    {
        i = i + 1;
    }
    if i < rates.len() && rates[i] == rate {
        assert(rates@[i as int] == rate);
        assert(rates@.contains(rate));
        return;
    }
    let ghost before = rates@;
    rates.insert(i, rate);
    proof {
        assert(before == old(rates)@);
        assert(rates@ == before.insert(i as int, rate));
        assert forall|a: int, b: int| 0 <= a < b < rates@.len() implies rates@[a] < rates@[b] by {
            if b < i {
                assert(rates@[a] == before[a] && rates@[b] == before[b]);
            } else if b == i {
                assert(rates@[a] == before[a]);
            } else if a < i {
                assert(rates@[a] == before[a] && rates@[b] == before[b - 1]);
                assert(before[i as int] > rate);
                if b - 1 > i {
                    assert(before[i as int] < before[b - 1]);
                }
            } else if a == i {
                assert(rates@[b] == before[b - 1]);
                assert(before[i as int] > rate);
                if b - 1 > i {
                    assert(before[i as int] < before[b - 1]);
                }
            } else {
                assert(rates@[a] == before[a - 1] && rates@[b] == before[b - 1]);
            }
        }
        assert forall|x: u32| rates@.contains(x) <==> (before.contains(x) || x == rate) by {
            if rates@.contains(x) {
                let k = choose|k: int| 0 <= k < rates@.len() && #[trigger] rates@[k] == x;
                if k < i {
                    assert(before[k] == x);
                    assert(before.contains(x));
                } else if k > i {
                    assert(before[k - 1] == x);
                    assert(before.contains(x));
                }
            }
            if before.contains(x) {
                let k = choose|k: int| 0 <= k < before.len() && #[trigger] before[k] == x;
                if k < i {
                    assert(rates@[k] == x);
                } else {
                    assert(rates@[k + 1] == x);
                }
                assert(rates@.contains(x));
            }
            if x == rate {
                assert(rates@[i as int] == x);
                assert(rates@.contains(x));
            }
        }
        assert(forall|x: u32| rates@.contains(x) <==> (old(rates)@.contains(x) || x == rate));
    }
}

/// The distinct refresh rates of the display modes, lowest first. A
/// frequency of 0 or 1 means "hardware default" rather than a rate, and is
/// left out.
pub fn supported_rates(frequencies: &[u32]) -> (rates: Vec<u32>)
    ensures
        strictly_increasing(rates@),
        forall|x: u32| rates@.contains(x) <==> (x > 1 && frequencies@.contains(x)),
{
    let mut rates: Vec<u32> = Vec::new();
    let mut i: usize = 0;
    while i < frequencies.len()
        invariant
            i <= frequencies.len(),
            strictly_increasing(rates@),
            forall|x: u32|
                rates@.contains(x) <==> (x > 1 && frequencies@.take(i as int).contains(x)),
        decreases frequencies.len() - i,
    {
        let f = frequencies[i];
        proof {
            assert forall|x: u32|
                frequencies@.take(i + 1).contains(x) <==> (frequencies@.take(i as int).contains(x)
                    || x == f) by {
                if frequencies@.take(i + 1).contains(x) {
                    let k = choose|k: int| 0 <= k < i + 1 && #[trigger] frequencies@.take(i + 1)[k] == x;
                    if k < i {
                        assert(frequencies@.take(i as int)[k] == x);
                    }
                }
                if frequencies@.take(i as int).contains(x) {
                    let k = choose|k: int| 0 <= k < i && #[trigger] frequencies@.take(i as int)[k] == x;
                    assert(frequencies@.take(i + 1)[k] == x);
                }
                if x == f {
                    assert(frequencies@.take(i + 1)[i as int] == x);
                }
            }
        }
        let ghost prior = rates@;
        if f > 1 {
            insert_rate(&mut rates, f);
        }
        proof {
            assert forall|x: u32|
                rates@.contains(x) <==> (x > 1 && frequencies@.take(i + 1).contains(x)) by {
                if f > 1 {
                    assert(rates@.contains(x) <==> (prior.contains(x) || x == f));
                } else {
                    assert(rates@ == prior);
                }
            }
        }
        i = i + 1;
    }
    assert(frequencies@.take(frequencies.len() as int) =~= frequencies@);
    rates
}

/// The primary display, named the way every display call wants it: a wide
/// string, nul-terminated.
pub struct DisplayManager {
    pub device_name: Vec<u16>,
}

impl DisplayManager {
    /// A manager for the primary display, if there is one.
    pub fn new(primary_device_name: Option<Vec<u16>>) -> (manager: Option<Self>)
        ensures
            match primary_device_name {
                Some(name) => (manager matches Some(m) && m.device_name@ == name@),
                None => manager is None,
            },
    {
        match primary_device_name {
            Some(device_name) => Some(DisplayManager { device_name }),
            None => None,
        }
    }

    /// Points the manager at the display that is primary now.
    pub fn refresh_primary(&mut self, primary_device_name: Option<Vec<u16>>) -> (r: Result<(), AppError>)
        ensures
            match primary_device_name {
                Some(name) => r is Ok && final(self).device_name@ == name@,
                None => (r == Err::<(), AppError>(AppError::DisplayNotFound))
                    && final(self).device_name@ == old(self).device_name@,
            },
    {
        match primary_device_name {
            Some(name) => {
                self.device_name = name;
                Ok(())
            },
            None => Err(AppError::DisplayNotFound),
        }
    }

    /// The rate to switch to from `current`, among the display's
    /// `supported` rates (lowest first); backwards with shift held.
    pub fn cycle_refresh_rate(&self, supported: &[u32], current: u32, reverse: bool) -> (r: Result<u32, AppError>)
        ensures
            supported@.len() == 0 ==> r == Err::<u32, AppError>(AppError::DisplayNotFound),
            supported@.len() > 0 ==> (spec_next_rate(supported@, current, reverse) matches Some(
                rate,
            ) && r == Ok::<u32, AppError>(rate)),
    {
        if supported.len() == 0 {
            return Err(AppError::DisplayNotFound);
        }
        match choose_next_rate(supported, current, reverse) {
            Some(rate) => Ok(rate),
            None => Err(AppError::DisplayNotFound),
        }
    }
}

/// Cycling forward from a supported rate moves to the next higher supported
/// rate, or wraps to the lowest from the highest; cycling back undoes it.
pub proof fn forward_then_back_returns(rates: Seq<u32>, i: int)
    requires
        strictly_increasing(rates),
        0 <= i < rates.len(),
    ensures
        i + 1 < rates.len() ==> spec_next_rate(rates, rates[i], false) == Some(rates[i + 1]),
        i + 1 == rates.len() ==> spec_next_rate(rates, rates[i], false) == Some(rates[0]),
        spec_next_rate(rates, rates[i], false) matches Some(next) ==> (spec_next_rate(
            rates,
            next,
            true,
        ) == Some(rates[i])),
{
    lemma_first_above(rates, rates[i]);
    lemma_last_below(rates, rates[i]);
    let next = if i + 1 < rates.len() {
        rates[i + 1]
    } else {
        rates[0]
    };
    if i + 1 < rates.len() {
        if let Some(k) = first_above(rates, rates[i]) {
            if k < i + 1 {
                assert(rates[k] <= rates[i]);
            }
            if k > i + 1 {
                assert(rates[i + 1] <= rates[i]);
            }
        }
        lemma_last_below(rates, rates[i + 1]);
        if let Some(k) = last_below(rates, rates[i + 1]) {
            if k < i {
                assert(rates[i] < rates[i + 1]);
            }
        }
    } else {
        lemma_last_below(rates, rates[0]);
        if i > 0 {
            if let Some(k) = last_below(rates, rates[0]) {
                assert(rates[0] <= rates[k]);
            }
        }
    }
}

proof fn lemma_last_below(rates: Seq<u32>, current: u32)
    ensures
        last_below(rates, current) matches Some(i) ==> 0 <= i < rates.len() && rates[i] < current
            && forall|j: int| i < j < rates.len() ==> rates[j] >= current,
        last_below(rates, current) is None ==> forall|j: int|
            0 <= j < rates.len() ==> rates[j] >= current,
    decreases rates.len(),
{
    if rates.len() > 0 {
        let init = rates.drop_last();
        lemma_last_below(init, current);
        assert forall|j: int| 0 <= j < init.len() implies init[j] == rates[j] by {}
    }
}

} // verus!
