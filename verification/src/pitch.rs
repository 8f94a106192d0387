//! The search for the pitch period in an autocorrelation.
//!
//! The autocorrelation itself is floating-point work and is done elsewhere.
//! Here a value of it is a level: `Some(k)` for a number, where a larger
//! number has a larger `k` and `k` is negative for a number below zero and
//! for no other, and `None` for what is not a number. A level that is not a
//! number is neither below zero nor above or below any other level.

use vstd::prelude::*;

verus! {

/// Whether a level is below zero.
pub open spec fn is_negative(level: Option<i32>) -> bool {
    level matches Some(k) && k < 0
}

/// Whether the level `a` is above the level `b`.
pub open spec fn exceeds(a: Option<i32>, b: Option<i32>) -> bool {
    a matches Some(x) && b matches Some(y) && x > y
}

/// The first lag at which the autocorrelation is below zero, if there is
/// one.
pub open spec fn first_negative(levels: Seq<Option<i32>>) -> Option<int> {
    if exists|i: int| 0 <= i < levels.len() && is_negative(levels[i]) {
        Some(choose|i: int| is_first_negative(levels, i))
    } else {
        None
    }
}

/// Whether `i` is the first lag at which the autocorrelation is below zero.
pub open spec fn is_first_negative(levels: Seq<Option<i32>>, i: int) -> bool {
    &&& 0 <= i < levels.len()
    &&& is_negative(levels[i])
    &&& forall|j: int| 0 <= j < i ==> !is_negative(#[trigger] levels[j])
}

/// The peak after the lags from `from` up to `to` were looked at, one after
/// the other, with `best` the peak before them: a lag becomes the peak where
/// its level is above the level of the peak so far.
pub open spec fn running_peak(levels: Seq<Option<i32>>, best: int, from: int, to: int) -> int
    decreases to - from,
{
    if from >= to {
        best
    } else if exceeds(levels[from], levels[best]) {
        running_peak(levels, from, from + 1, to)
    } else {
        running_peak(levels, best, from + 1, to)
    }
}

/// The lag of the peak among the lags from `start` up to `window`.
///
/// Where `start` is not below `window`, nothing is searched and the lag is
/// `start`. A search from lag zero passes over lag zero, where every
/// autocorrelation has its largest value: it takes lag one as the first
/// peak.
pub open spec fn peak_of(levels: Seq<Option<i32>>, start: int, window: int) -> int {
    if start >= window {
        start
    } else if start == 0 {
        if window < 2 {
            0
        } else {
            running_peak(levels, 1, 2, window)
        }
    } else {
        running_peak(levels, start, start + 1, window)
    }
}

/// The period that the autocorrelation `levels` of a window of `window`
/// samples shows, in samples: the lag of the peak from the first lag below
/// zero on, or from lag zero on where no lag is below zero.
pub open spec fn period_of(levels: Seq<Option<i32>>, window: int) -> int {
    let start = match first_negative(levels) {
        Some(i) => i,
        None => 0,
    };
    peak_of(levels, start, window)
}

/// Whether a level is zero or above it.
pub open spec fn is_not_negative(level: Option<i32>) -> bool {
    level matches Some(k) && k >= 0
}

/// Whether two levels lie on different sides of zero: one below it, the
/// other on it or above. A level that is not a number lies on no side.
pub open spec fn crosses(a: Option<i32>, b: Option<i32>) -> bool {
    (is_negative(a) && is_not_negative(b)) || (is_not_negative(a) && is_negative(b))
}

/// The number of lags whose level is on the other side of zero than the
/// level of the lag before, among the first `upto` lags.
pub open spec fn crossings(levels: Seq<Option<i32>>, upto: int) -> nat
    decreases upto,
{
    if upto <= 1 {
        0
    } else {
        crossings(levels, upto - 1) + if crosses(levels[upto - 1], levels[upto - 2]) {
            1nat
        } else {
            0nat
        }
    }
}

/// The running peak is one of the lags that were looked at, or the peak
/// before them; no lag that was looked at is above it; and it is above every
/// lag between the peak before and itself, where every level is a number.
pub proof fn lemma_running_peak(levels: Seq<Option<i32>>, best: int, from: int, to: int)
    requires
        0 <= best < from <= to <= levels.len(),
        forall|i: int| 0 <= i < levels.len() ==> (#[trigger] levels[i]).is_some(),
    ensures
        best <= running_peak(levels, best, from, to) < to,
        running_peak(levels, best, from, to) == best || from <= running_peak(
            levels,
            best,
            from,
            to,
        ),
        !exceeds(levels[best], levels[running_peak(levels, best, from, to)]),
        forall|i: int|
            from <= i < to ==> !exceeds(
                #[trigger] levels[i],
                levels[running_peak(levels, best, from, to)],
            ),
        forall|i: int|
            from <= i < running_peak(levels, best, from, to) ==> exceeds(
                levels[running_peak(levels, best, from, to)],
                #[trigger] levels[i],
            ),
        running_peak(levels, best, from, to) != best ==> exceeds(
            levels[running_peak(levels, best, from, to)],
            levels[best],
        ),
    decreases to - from,
{
    if from < to {
        if exceeds(levels[from], levels[best]) {
            lemma_running_peak(levels, from, from + 1, to);
        } else {
            lemma_running_peak(levels, best, from + 1, to);
        }
    }
}

/// Where every level is a number, the peak from a lag above zero is the
/// first lag from there on that no other lag in the window is above.
pub proof fn lemma_peak_is_first_maximum(levels: Seq<Option<i32>>, start: int, window: int)
    requires
        0 < start < window <= levels.len(),
        forall|i: int| 0 <= i < levels.len() ==> (#[trigger] levels[i]).is_some(),
    ensures
        start <= peak_of(levels, start, window) < window,
        forall|i: int|
            start <= i < window ==> !exceeds(
                #[trigger] levels[i],
                levels[peak_of(levels, start, window)],
            ),
        forall|i: int|
            start <= i < peak_of(levels, start, window) ==> exceeds(
                levels[peak_of(levels, start, window)],
                #[trigger] levels[i],
            ),
{
    lemma_running_peak(levels, start, start + 1, window);
}

/// The first lag at which the autocorrelation is below zero, if there is
/// one.
pub fn first_zero_crossing(levels: &Vec<Option<i32>>) -> (lag: Option<usize>)
    ensures
        lag matches Some(i) ==> is_first_negative(levels@, i as int),
        lag.is_none() ==> forall|j: int| 0 <= j < levels@.len() ==> !is_negative(
            #[trigger] levels@[j],
        ),
        match lag {
            Some(i) => first_negative(levels@) == Some(i as int),
            None => first_negative(levels@).is_none(),
        },
{
    let mut i: usize = 0;
    while i < levels.len()
        invariant
            0 <= i <= levels@.len(),
            forall|j: int| 0 <= j < i ==> !is_negative(#[trigger] levels@[j]),
        decreases levels@.len() - i,
    {
        let negative = match levels[i] {
            Some(k) => k < 0,
            None => false,
        };
        if negative {
            proof {
                lemma_first_negative_unique(levels@, i as int);
            }
            return Some(i);
        }
        i = i + 1;
    }
    None
}

/// There is one first lag below zero at most, and `first_negative` names
/// it.
pub proof fn lemma_first_negative_unique(levels: Seq<Option<i32>>, i: int)
    requires
        is_first_negative(levels, i),
    ensures
        first_negative(levels) == Some(i),
{
    let j = choose|j: int| is_first_negative(levels, j);
    assert(is_first_negative(levels, j));
    if j < i {
        assert(!is_negative(levels[j]));
    }
    if i < j {
        assert(!is_negative(levels[i]));
    }
}

/// Whether the level `a` is above the level `b`.
fn level_exceeds(a: Option<i32>, b: Option<i32>) -> (above: bool)
    ensures
        above == exceeds(a, b),
{
    match (a, b) {
        (Some(x), Some(y)) => x > y,
        _ => false,
    }
}

/// The lag of the peak among the lags from `start` up to `window`; no lag
/// beyond the autocorrelation is looked at.
pub fn peak_lag(levels: &Vec<Option<i32>>, start: usize, window: usize) -> (lag: usize)
    ensures
        window <= levels@.len() ==> lag == peak_of(levels@, start as int, window as int),
        window > levels@.len() ==> lag == peak_of(levels@, start as int, levels@.len() as int),
{
    let end = if window <= levels.len() {
        window
    } else {
        levels.len()
    };
    if start >= end {
        return start;
    }
    let mut max_index: usize = start;
    let mut lag: usize = start + 1;
    if start == 0 {
        if end < 2 {
            return 0;
        }
        max_index = 1;
        lag = 2;
    }
    let ghost first = max_index as int;
    let ghost from = lag as int;
    while lag < end
        invariant
            0 <= first < from <= lag <= end <= levels@.len(),
            0 <= max_index < lag,
            running_peak(levels@, first, from, end as int) == running_peak(
                levels@,
                max_index as int,
                lag as int,
                end as int,
            ),
        decreases end - lag,
    {
        if level_exceeds(levels[lag], levels[max_index]) {
            max_index = lag;
        }
        lag = lag + 1;
    }
    max_index
}

/// The period that the autocorrelation `levels` of a window of `window`
/// samples shows, in samples.
pub fn estimate_period(levels: &Vec<Option<i32>>, window: usize) -> (period: usize)
    ensures
        window <= levels@.len() ==> period == period_of(levels@, window as int),
        window > levels@.len() ==> period == period_of(levels@, levels@.len() as int),
{
    let start = match first_zero_crossing(levels) {
        Some(i) => i,
        None => 0,
    };
    peak_lag(levels, start, window)
}

/// The number of lags whose level is on the other side of zero than the
/// level of the lag before. Next to a level that is not a number no
/// crossing is counted.
pub fn zero_crossings(levels: &Vec<Option<i32>>) -> (count: usize)
    ensures
        count == crossings(levels@, levels@.len() as int),
{
    if levels.len() == 0 {
        return 0;
    }
    let mut count: usize = 0;
    let mut i: usize = 1;
    while i < levels.len()
        invariant
            1 <= i <= levels@.len(),
            count == crossings(levels@, i as int),
            count < i,
        decreases levels@.len() - i,
    {
        let crossed = match (levels[i], levels[i - 1]) {
            (Some(now), Some(before)) => (now < 0 && before >= 0) || (now >= 0 && before < 0),
            _ => false,
        };
        if crossed {
            count = count + 1;
        }
        i = i + 1;
    }
    count
}

} // verus!
