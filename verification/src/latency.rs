//! How long the latest cycles took: a window over the newest samples, and the whole numbers
//! that their mean and their deviation are made from.
use std::collections::VecDeque;
use vstd::prelude::*;

verus! {

/// The number of samples that the window keeps.
pub const WINDOW: usize = 1000;

/// The newest `count` of `samples`, or all of them if there are fewer.
pub open spec fn newest(samples: Seq<u32>, count: nat) -> Seq<u32> {
    if samples.len() <= count {
        samples
    } else {
        samples.subrange(samples.len() - count, samples.len() as int)
    }
}

/// The sum of `samples`.
pub open spec fn total(samples: Seq<u32>) -> nat
    decreases samples.len(),
{
    if samples.len() == 0 {
        0
    } else {
        total(samples.drop_last()) + samples.last() as nat
    }
}

/// The mean of `samples`, rounded down.
pub open spec fn mean_of(samples: Seq<u32>) -> nat
    recommends
        samples.len() > 0,
{
    total(samples) / samples.len()
}

/// The sum of the squares of `samples`.
pub open spec fn total_of_squares(samples: Seq<u32>) -> nat
    decreases samples.len(),
{
    if samples.len() == 0 {
        0
    } else {
        total_of_squares(samples.drop_last()) + (samples.last() * samples.last()) as nat
    }
}

/// The number of `samples` times the sum of their squared distances to their mean, the mean
/// taken exactly. It is a whole number even where the mean is none: the number of samples
/// times the sum of their squares, less the square of their sum. Divided by the number of
/// samples and by one less, it is the sample variance.
pub open spec fn spread_of(samples: Seq<u32>) -> int {
    samples.len() * total_of_squares(samples) - total(samples) * total(samples)
}

/// The sum over `samples` of the squared distance to `center`.
pub open spec fn squares_around(samples: Seq<u32>, center: int) -> nat
    decreases samples.len(),
{
    if samples.len() == 0 {
        0
    } else {
        squares_around(samples.drop_last(), center) + ((samples.last() - center) * (samples.last()
            - center)) as nat
    }
}

/// The durations of the newest cycles, oldest first, `WINDOW` of them at most.
pub struct LatencyWindow {
    samples: VecDeque<u32>,
}

impl View for LatencyWindow {
    type V = Seq<u32>;

    closed spec fn view(&self) -> Seq<u32> {
        self.samples@
    }
}

impl Clone for LatencyWindow {
    /// A window of its own that holds the same samples.
    fn clone(&self) -> (copy: LatencyWindow)
        ensures
            copy@ == self@,
    {
        proof {
            use_type_invariant(self);
        }
        let samples = self.samples.clone();
        assert(samples@ =~= self.samples@);
        LatencyWindow { samples: samples }
    }
}

impl LatencyWindow {
    #[verifier::type_invariant]
    spec fn bounded(self) -> bool {
        self.samples@.len() <= WINDOW
    }

    /// A window without samples.
    pub fn new() -> (window: LatencyWindow)
        ensures
            window@ == Seq::<u32>::empty(),
    {
        LatencyWindow { samples: VecDeque::new() }
    }

    /// Adds a sample. Of a full window the oldest sample leaves.
    pub fn record(&mut self, elapsed: u32)
        ensures
            final(self)@ == newest(old(self)@.push(elapsed), WINDOW as nat),
            final(self)@.len() <= WINDOW,
    {
        proof {
            use_type_invariant(&*self);
        }
        let mut taken = LatencyWindow::new();
        core::mem::swap(self, &mut taken);
        let LatencyWindow { samples: mut samples } = taken;
        if samples.len() == WINDOW {
            samples.pop_front();
        }
        samples.push_back(elapsed);
        assert(samples@ =~= newest(old(self)@.push(elapsed), WINDOW as nat));
        *self = LatencyWindow { samples };
    }

    /// The number of samples in the window.
    pub fn len(&self) -> (count: usize)
        ensures
            count == self@.len(),
            count <= WINDOW,
    {
        proof {
            use_type_invariant(self);
        }
        self.samples.len()
    }

    /// The sum of the samples in the window.
    pub fn sum(&self) -> (sum: u64)
        ensures
            sum == total(self@),
    {
        proof {
            use_type_invariant(self);
        }
        let count = self.samples.len();
        let mut sum: u64 = 0;
        let mut i: usize = 0;
        while i < count
            invariant
                i <= count,
                count == self.samples@.len(),
                count <= WINDOW,
                sum == total(self.samples@.take(i as int)),
                sum <= i * 0xFFFF_FFFF,
            decreases count - i,
        {
            assert(self.samples@.take(i + 1).drop_last() =~= self.samples@.take(i as int));
            sum = sum + self.samples[i] as u64;
            i += 1;
        }
        assert(self.samples@.take(count as int) =~= self.samples@);
        sum
    }

    /// The mean of the samples, rounded down; `None` of an empty window.
    pub fn mean(&self) -> (mean: Option<u32>)
        ensures
            self@.len() == 0 ==> mean is None,
            self@.len() > 0 ==> mean == Some(mean_of(self@) as u32) && mean_of(self@)
                <= 0xFFFF_FFFF,
    {
        let count = self.len();
        if count == 0 {
            return None;
        }
        let sum = self.sum();
        proof {
            lemma_total_bound(self@);
            assert(sum / (count as u64) <= 0xFFFF_FFFF) by (nonlinear_arith)
                requires
                    sum <= count * 0xFFFF_FFFF,
                    count > 0,
            ;
        }
        Some((sum / (count as u64)) as u32)
    }

    /// The sum of the squares of the samples in the window.
    pub fn sum_of_squares(&self) -> (sum: u128)
        ensures
            sum == total_of_squares(self@),
    {
        proof {
            use_type_invariant(self);
        }
        let count = self.samples.len();
        let mut sum: u128 = 0;
        let mut i: usize = 0;
        while i < count
            invariant
                i <= count,
                count == self.samples@.len(),
                count <= WINDOW,
                sum == total_of_squares(self.samples@.take(i as int)),
                sum <= i * 0x1_0000_0000_0000_0000,
            decreases count - i,
        {
            assert(self.samples@.take(i + 1).drop_last() =~= self.samples@.take(i as int));
            let sample: u64 = self.samples[i] as u64;
            assert(sample * sample < 0x1_0000_0000_0000_0000) by (nonlinear_arith)
                requires
                    sample < 0x1_0000_0000,
            ;
            sum = sum + (sample * sample) as u128;
            i += 1;
        }
        assert(self.samples@.take(count as int) =~= self.samples@);
        sum
    }

    /// What the deviation of the samples is made from: the number of samples times the sum
    /// of their squared distances to their exact mean, a whole number. The sample variance is
    /// this, divided by the number of samples and by one less. `None` where there are fewer
    /// than two samples, of which no deviation can be told.
    pub fn spread(&self) -> (spread: Option<u128>)
        ensures
            self@.len() < 2 ==> spread is None,
            self@.len() >= 2 ==> spread == Some(spread_of(self@) as u128) && 0 <= spread_of(self@)
                <= u128::MAX,
    {
        let count = self.len();
        if count < 2 {
            return None;
        }
        let sum = self.sum() as u128;
        let squares = self.sum_of_squares();
        proof {
            lemma_total_bound(self@);
            lemma_total_of_squares_bound(self@);
            lemma_spread_is_not_negative(self@);
            assert(count * squares <= 1000 * (1000 * 0x1_0000_0000_0000_0000)) by (nonlinear_arith)
                requires
                    count <= 1000,
                    squares <= count * 0x1_0000_0000_0000_0000,
            ;
            assert(sum * sum <= (1000 * 0xFFFF_FFFF) * (1000 * 0xFFFF_FFFF)) by (nonlinear_arith)
                requires
                    count <= 1000,
                    sum <= count * 0xFFFF_FFFF,
            ;
        }
        Some((count as u128) * squares - sum * sum)
    }
}

/// The sum of samples is at most their number times the largest sample there can be.
pub proof fn lemma_total_bound(samples: Seq<u32>)
    ensures
        total(samples) <= samples.len() * 0xFFFF_FFFF,
    decreases samples.len(),
{
    if samples.len() > 0 {
        lemma_total_bound(samples.drop_last());
    }
}

/// The sum of the squares of samples is at most their number times the largest square there
/// can be.
pub proof fn lemma_total_of_squares_bound(samples: Seq<u32>)
    ensures
        total_of_squares(samples) <= samples.len() * 0x1_0000_0000_0000_0000,
    decreases samples.len(),
{
    if samples.len() > 0 {
        lemma_total_of_squares_bound(samples.drop_last());
        let last = samples.last();
        assert(last * last < 0x1_0000_0000_0000_0000) by (nonlinear_arith)
            requires
                0 <= last < 0x1_0000_0000,
        ;
    }
}

/// The squared distances to `center` add up to the sum of the squares, less twice `center`
/// times the sum, and the square of `center` once for each sample.
pub proof fn lemma_squares_around_expands(samples: Seq<u32>, center: int)
    ensures
        squares_around(samples, center) == total_of_squares(samples) - 2 * center * total(samples)
            + samples.len() * center * center,
    decreases samples.len(),
{
    let count = samples.len() as int;
    if count > 0 {
        let rest = samples.drop_last();
        let last = samples.last() as int;
        lemma_squares_around_expands(rest, center);
        let squares = total_of_squares(rest) as int;
        let sum = total(rest) as int;
        let around = squares_around(rest, center) as int;
        assert((last - center) * (last - center) >= 0) by (nonlinear_arith);
        assert(last * last >= 0) by (nonlinear_arith);
        assert(squares_around(samples, center) == around + (last - center) * (last - center));
        assert(total_of_squares(samples) == squares + last * last);
        assert(total(samples) == sum + last);
        assert(around + (last - center) * (last - center) == (squares + last * last) - 2 * center
            * (sum + last) + count * center * center) by (nonlinear_arith)
            requires
                around == squares - 2 * center * sum + (count - 1) * center * center,
        ;
    } else {
        assert(2 * center * 0 == 0);
        assert(0 * center * center == 0) by (nonlinear_arith);
    }
}

/// One more sample adds to the spread its squared distances to the samples before it.
pub proof fn lemma_spread_grows(samples: Seq<u32>, sample: u32)
    ensures
        spread_of(samples.push(sample)) == spread_of(samples) + squares_around(
            samples,
            sample as int,
        ),
{
    let more = samples.push(sample);
    assert(more.drop_last() =~= samples);
    lemma_squares_around_expands(samples, sample as int);
    let count = samples.len() as int;
    let squares = total_of_squares(samples) as int;
    let sum = total(samples) as int;
    let new = sample as int;
    assert(new * new >= 0) by (nonlinear_arith);
    assert((count + 1) * (squares + new * new) - (sum + new) * (sum + new) == (count * squares - sum
        * sum) + (squares - 2 * new * sum + count * new * new)) by (nonlinear_arith);
}

/// The spread is never negative: the square of a sum is at most the sum of the squares times
/// their number.
pub proof fn lemma_spread_is_not_negative(samples: Seq<u32>)
    ensures
        spread_of(samples) >= 0,
    decreases samples.len(),
{
    if samples.len() > 0 {
        let rest = samples.drop_last();
        lemma_spread_is_not_negative(rest);
        lemma_spread_grows(rest, samples.last());
        assert(rest.push(samples.last()) =~= samples);
    } else {
        assert(total(samples) * total(samples) == 0) by (nonlinear_arith)
            requires
                total(samples) == 0,
        ;
    }
}

/// The spread is the squared distances to the mean, taken exactly. Around any whole number
/// `center` the squared distances, times the number of samples, are the spread and the
/// square of how far `center` times that number is from the sum. So they are the spread
/// where `center` is the mean, and more than the spread everywhere else.
pub proof fn lemma_spread_is_around_the_mean(samples: Seq<u32>, center: int)
    ensures
        samples.len() * squares_around(samples, center) == spread_of(samples) + (total(samples)
            - samples.len() * center) * (total(samples) - samples.len() * center),
        total(samples) == samples.len() * center ==> spread_of(samples) == samples.len()
            * squares_around(samples, center),
        spread_of(samples) <= samples.len() * squares_around(samples, center),
{
    lemma_squares_around_expands(samples, center);
    let count = samples.len() as int;
    let squares = total_of_squares(samples) as int;
    let sum = total(samples) as int;
    let around = squares_around(samples, center) as int;
    assert(count * around == (count * squares - sum * sum) + (sum - count * center) * (sum - count
        * center)) by (nonlinear_arith)
        requires
            around == squares - 2 * center * sum + count * center * center,
    ;
    assert((sum - count * center) * (sum - count * center) >= 0) by (nonlinear_arith);
    if sum == count * center {
        assert((sum - count * center) * (sum - count * center) == 0) by (nonlinear_arith)
            requires
                sum == count * center,
        ;
    }
}

/// To keep the newest of what was kept and one more is to keep the newest of all.
pub proof fn lemma_window_keeps_newest(all: Seq<u32>, sample: u32, count: nat)
    requires
        count > 0,
    ensures
        newest(newest(all, count).push(sample), count) == newest(all.push(sample), count),
{
    assert(newest(newest(all, count).push(sample), count) =~= newest(all.push(sample), count));
}

/// The window after every sample of `all` has been recorded in turn, starting from none.
pub open spec fn recorded(all: Seq<u32>) -> Seq<u32>
    decreases all.len(),
{
    if all.len() == 0 {
        all
    } else {
        newest(recorded(all.drop_last()).push(all.last()), WINDOW as nat)
    }
}

/// Whatever was recorded, the window holds exactly the newest `WINDOW` samples of it.
pub proof fn lemma_recorded_is_newest(all: Seq<u32>)
    ensures
        recorded(all) == newest(all, WINDOW as nat),
    decreases all.len(),
{
    if all.len() > 0 {
        lemma_recorded_is_newest(all.drop_last());
        lemma_window_keeps_newest(all.drop_last(), all.last(), WINDOW as nat);
        assert(all.drop_last().push(all.last()) =~= all);
    }
}

} // verus!
