//! The simple moving average: the mean of the last `period` inputs.
use crate::error::{Result, TalibError};
use crate::scalar::slide;
use crate::traits::{Indicator, Resettable, Sample};
use vstd::prelude::*;

verus! {

/// What a moving average has accumulated: its period, the inputs currently in its
/// window (oldest first) and its running total.
pub struct SmaState<T> {
    /// The number of inputs averaged.
    pub period: nat,
    /// The most recent inputs, oldest first, at most `period` of them.
    pub window: Seq<T>,
    /// The running total kept alongside the window.
    pub sum: T,
}

/// The state of a new (or reset) moving average: nothing seen, total zero.
pub open spec fn initial<T: Sample>(period: nat) -> SmaState<T> {
    SmaState { period, window: Seq::empty(), sum: T::zero_spec() }
}

/// The state that `reset` leaves: the initial state for the same period.
pub open spec fn reset_state<T: Sample>(s: SmaState<T>) -> SmaState<T> {
    initial(s.period)
}

/// The state after taking `x`. A non-finite input discards everything seen so far.
/// Otherwise `x` joins the window; once the window is full the oldest input leaves it
/// and is taken off the total before `x` is added.
pub open spec fn advance<T: Sample>(s: SmaState<T>, x: T) -> SmaState<T> {
    if !x.finite_spec() {
        initial(s.period)
    } else if s.window.len() == s.period {
        SmaState {
            period: s.period,
            window: s.window.drop_first().push(x),
            sum: s.sum.minus_spec(s.window[0]).plus_spec(x),
        }
    } else {
        SmaState { period: s.period, window: s.window.push(x), sum: s.sum.plus_spec(x) }
    }
}

/// What a state answers: the mean once the window is full, nothing before.
pub open spec fn emitted<T: Sample>(s: SmaState<T>) -> Option<T> {
    if s.window.len() == s.period {
        Some(s.sum.div_count_spec(s.period))
    } else {
        None
    }
}

/// The state after taking each of `xs` in order.
pub open spec fn run<T: Sample>(s: SmaState<T>, xs: Seq<T>) -> SmaState<T>
    decreases xs.len(),
{
    if xs.len() == 0 {
        s
    } else {
        advance(run(s, xs.drop_last()), xs.last())
    }
}

/// The answer to each of `xs`, taken in order from state `s`.
pub open spec fn outputs<T: Sample>(s: SmaState<T>, xs: Seq<T>) -> Seq<Option<T>>
    decreases xs.len(),
{
    if xs.len() == 0 {
        Seq::empty()
    } else {
        outputs(s, xs.drop_last()).push(emitted(run(s, xs)))
    }
}

/// Whether every element of `xs` is finite.
pub open spec fn all_finite<T: Sample>(xs: Seq<T>) -> bool {
    forall|i: int| 0 <= i < xs.len() ==> #[trigger] xs[i].finite_spec()
}

/// The batch means of `xs` for period `p`: the first window is totalled by the kernel
/// family of the process, each later total is derived from the previous one, and every
/// total is divided by `p`.
pub open spec fn batch_means<T: Sample>(xs: Seq<T>, p: nat) -> Seq<T> {
    Seq::new(
        (xs.len() - p + 1) as nat,
        |i: int|
            slide(T::kernel_sum_spec(xs.subrange(0, p as int)), xs, p, i as nat).div_count_spec(p),
    )
}

/// The answer to the input at position `k` is what the state after the first `k + 1`
/// inputs emits.
proof fn lemma_outputs_index<T: Sample>(s: SmaState<T>, xs: Seq<T>)
    ensures
        outputs(s, xs).len() == xs.len(),
        forall|k: int|
            0 <= k < xs.len() ==> #[trigger] outputs(s, xs)[k] == emitted(
                run(s, xs.subrange(0, k + 1)),
            ),
    decreases xs.len(),
{
    if xs.len() > 0 {
        let prefix = xs.drop_last();
        lemma_outputs_index(s, prefix);
        assert forall|k: int| 0 <= k < xs.len() implies #[trigger] outputs(s, xs)[k] == emitted(
            run(s, xs.subrange(0, k + 1)),
        ) by {
            if k < xs.len() - 1 {
                assert(prefix.subrange(0, k + 1) =~= xs.subrange(0, k + 1));
            } else {
                assert(xs.subrange(0, k + 1) =~= xs);
            }
        }
    }
}

/// From a new indicator, finite inputs fill the window up to the period and then keep
/// it full.
proof fn lemma_run_fills<T: Sample>(period: nat, xs: Seq<T>)
    requires
        period > 0,
        all_finite(xs),
    ensures
        run(initial::<T>(period), xs).period == period,
        run(initial::<T>(period), xs).window.len() == if xs.len() < period {
            xs.len()
        } else {
            period
        },
    decreases xs.len(),
{
    if xs.len() > 0 {
        let prefix = xs.drop_last();
        assert forall|i: int| 0 <= i < prefix.len() implies #[trigger] prefix[i].finite_spec() by {
            assert(prefix[i] == xs[i]);
        }
        lemma_run_fills(period, prefix);
        assert(xs.last() == xs[xs.len() - 1]);
    }
}

/// Streaming agrees with batch computation on where values are defined: from a new
/// indicator, over finite inputs, `stream` answers with a value exactly at the positions
/// from `period - 1` on, so it yields one value for each output of `compute_to_vec`.
pub proof fn stream_defined_where_batch_is<T: Sample>(period: nat, xs: Seq<T>)
    requires
        period > 0,
        all_finite(xs),
    ensures
        outputs(initial::<T>(period), xs).len() == xs.len(),
        forall|k: int|
            0 <= k < xs.len() ==> (#[trigger] outputs(initial::<T>(period), xs)[k] is Some <==> k
                >= period - 1),
        xs.len() >= period ==> batch_means(xs, period).len() == xs.len() - (period - 1),
{
    let s = initial::<T>(period);
    lemma_outputs_index(s, xs);
    assert forall|k: int| 0 <= k < xs.len() implies (#[trigger] outputs(s, xs)[k] is Some <==> k
        >= period - 1) by {
        let pre = xs.subrange(0, k + 1);
        assert forall|i: int| 0 <= i < pre.len() implies #[trigger] pre[i].finite_spec() by {
            assert(pre[i] == xs[i]);
        }
        lemma_run_fills(period, pre);
    }
}

/// A reset indicator behaves as a new one: after `reset` the state is `initial(period)`,
/// which is also the state of a new indicator with that period, and `stream` answers
/// from the state and the inputs alone; so the answers to any inputs are identical.
pub proof fn reset_behaves_as_new<T: Sample>(before_reset: SmaState<T>, xs: Seq<T>)
    ensures
        outputs(reset_state(before_reset), xs) == outputs(initial::<T>(before_reset.period), xs),
        run(reset_state(before_reset), xs) == run(initial::<T>(before_reset.period), xs),
{
}

/// With a period of one there is no warm-up: every finite input is answered with a value.
pub proof fn period_one_answers_every_input<T: Sample>(s: SmaState<T>, x: T)
    requires
        valid(s),
        s.period == 1,
        x.finite_spec(),
    ensures
        emitted(advance(s, x)) is Some,
{
}

/// A simple moving average over a fixed period, usable in batch and in streaming mode.
///
/// Streaming keeps the last `period` inputs in a circular buffer together with their
/// running total, so each step costs O(1).
#[derive(Debug)]
pub struct Sma<T> {
    period: usize,
    buffer: Vec<T>,
    sum: T,
    cursor: Cursor,
}

/// Where the circular buffer is written next, and how many of its slots hold inputs.
#[derive(Debug, Clone, Copy)]
struct Cursor {
    index: usize,
    count: usize,
}

/// A state that an indicator can be in: a positive period and at most that many inputs
/// in the window.
pub open spec fn valid<T>(s: SmaState<T>) -> bool {
    s.period > 0 && s.window.len() <= s.period
}

impl<T: Sample> View for Sma<T> {
    type V = SmaState<T>;

    closed spec fn view(&self) -> SmaState<T> {
        SmaState { period: self.period as nat, window: self.window_spec(), sum: self.sum }
    }
}

impl<T> Sma<T> {
    /// The buffer has one slot per period; the write position is in range; the valid
    /// entries are at most `period`, and until the buffer is full they are its first
    /// `count` slots, with the write position right after them.
    #[verifier::type_invariant]
    spec fn wf(self) -> bool {
        &&& self.period > 0
        &&& self.buffer@.len() == self.period
        &&& self.cursor.index < self.period
        &&& self.cursor.count <= self.period
        &&& self.cursor.count < self.period ==> self.cursor.index == self.cursor.count
    }
}

impl<T: Sample> Sma<T> {
    /// The inputs in the circular buffer, oldest first.
    closed spec fn window_spec(&self) -> Seq<T> {
        if self.cursor.count < self.period {
            self.buffer@.subrange(0, self.cursor.count as int)
        } else {
            self.buffer@.subrange(self.cursor.index as int, self.period as int) + self.buffer@.subrange(
                0,
                self.cursor.index as int,
            )
        }
    }

    /// A moving average over `period` inputs. A period of zero is rejected.
    pub fn new(period: usize) -> (r: Result<Sma<T>>)
        ensures
            period == 0 <==> r is Err,
            r matches Err(e) ==> (e matches TalibError::InvalidPeriod { period: p, reason: m }
                && p == 0 && m@ == "period must be greater than zero"@),
            r matches Ok(s) ==> s@ == initial::<T>(period as nat) && valid(s@),
    {
        if period == 0 {
            return Err(TalibError::invalid_period(period, "period must be greater than zero"));
        }
        let zero = T::zero();
        let mut buffer: Vec<T> = Vec::with_capacity(period);
        let mut i: usize = 0;
        while i < period
            invariant
                i <= period,
                buffer@.len() == i,
            decreases period - i,
        {
            buffer.push(zero);
            i += 1;
        }
        let s = Sma { period, buffer, sum: zero, cursor: Cursor { index: 0, count: 0 } };
        proof {
            assert(s@.window =~= Seq::<T>::empty());
        }
        Ok(s)
    }

    /// The number of inputs averaged.
    pub fn period(&self) -> (r: usize)
        ensures
            r as nat == self@.period,
    {
        proof {
            use_type_invariant(self);
        }
        self.period
    }

    /// How many leading inputs are consumed before the first output: `period - 1`.
    pub fn lookback(&self) -> (r: usize)
        ensures
            r as nat == self@.period - 1,
    {
        proof {
            use_type_invariant(self);
        }
        self.period - 1
    }

    /// Writes the batch means of `inputs` to the front of `outputs` and returns how many
    /// were written: `inputs.len() - lookback()`, or zero when there are no more inputs
    /// than the lookback.
    ///
    /// Fails when `outputs` is shorter than that count, and when any input is not
    /// finite; on failure `outputs` is left as it was. The state of the indicator is not
    /// used.
    pub fn compute(&self, inputs: &[T], outputs: &mut [T]) -> (r: Result<usize>)
        ensures
            ({
                let n = inputs@.len();
                let lb = self@.period - 1;
                let need = n - lb;
                &&& n <= lb ==> r == Ok::<usize, TalibError>(0) && final(outputs)@ == old(outputs)@
                &&& n > lb && old(outputs)@.len() < need ==> (r matches Err(
                    TalibError::InsufficientData { required, actual },
                ) && required == need && actual == old(outputs)@.len()) && final(outputs)@
                    == old(outputs)@
                &&& n > lb && old(outputs)@.len() >= need && !all_finite(inputs@) ==> (r matches Err(
                    e,
                ) && e matches TalibError::InvalidInput { message: m } && m@
                    == "Input contains NaN or infinite values"@) && final(outputs)@
                    == old(outputs)@
                &&& n > lb && old(outputs)@.len() >= need && all_finite(inputs@) ==> r
                    == Ok::<usize, TalibError>(need as usize) && final(outputs)@ == batch_means(
                    inputs@,
                    self@.period,
                ) + old(outputs)@.subrange(need, old(outputs)@.len() as int)
            }),
    {
        proof {
            use_type_invariant(self);
        }
        let period = self.period;
        let lookback = period - 1;
        let n = inputs.len();
        if n <= lookback {
            return Ok(0);
        }
        let required = n - lookback;
        if outputs.len() < required {
            return Err(TalibError::InsufficientData { required, actual: outputs.len() });
        }
        let mut i: usize = 0;
        while i < n
            invariant
                i <= n,
                n == inputs@.len(),
                period == self.period,
                period > 0,
                lookback == period - 1,
                n > lookback,
                required == n - lookback,
                outputs@ == old(outputs)@,
                outputs@.len() >= required,
                forall|j: int| 0 <= j < i ==> #[trigger] inputs@[j].finite_spec(),
            decreases n - i,
        {
            if !inputs[i].is_finite() {
                proof {
                    assert(!all_finite(inputs@));
                }
                return Err(TalibError::invalid_input("Input contains NaN or infinite values"));
            }
            i += 1;
        }
        let ghost p = period as nat;
        let ghost first = T::kernel_sum_spec(inputs@.subrange(0, period as int));
        let ghost means = batch_means(inputs@, p);
        let ghost before = outputs@;
        let mut running = T::kernel_sum(&inputs[0..period]);
        outputs[0] = running.div_count(period);
        let mut k: usize = 1;
        while k < required
            invariant
                1 <= k <= required,
                n == inputs@.len(),
                required == n - lookback,
                lookback == period - 1,
                p == period,
                period > 0,
                first == T::kernel_sum_spec(inputs@.subrange(0, period as int)),
                means == batch_means(inputs@, p),
                running == slide(first, inputs@, p, (k - 1) as nat),
                outputs@.len() == before.len(),
                required <= before.len(),
                forall|j: int| 0 <= j < k ==> outputs@[j] == means[j],
                forall|j: int| k <= j < before.len() ==> outputs@[j] == before[j],
            decreases required - k,
        {
            running = running.minus(inputs[k - 1]).plus(inputs[k + period - 1]);
            outputs[k] = running.div_count(period);
            k += 1;
        }
        proof {
            assert(outputs@ =~= means + before.subrange(required as int, before.len() as int));
        }
        Ok(required)
    }

    /// The batch means of `inputs` in a new vector: empty when there are no more inputs
    /// than the lookback. Fails when any input is not finite.
    pub fn compute_to_vec(&self, inputs: &[T]) -> (r: Result<Vec<T>>)
        ensures
            r matches Ok(v) ==> v@.len() == if inputs@.len() > self@.period - 1 {
                inputs@.len() - (self@.period - 1)
            } else {
                0
            },
            inputs@.len() <= self@.period - 1 ==> (r matches Ok(v) && v@.len() == 0),
            inputs@.len() > self@.period - 1 && all_finite(inputs@) ==> (r matches Ok(v) && v@
                == batch_means(inputs@, self@.period)),
            inputs@.len() > self@.period - 1 && !all_finite(inputs@) ==> (r matches Err(e)
                && e matches TalibError::InvalidInput { message: m } && m@
                == "Input contains NaN or infinite values"@),
    {
        proof {
            use_type_invariant(self);
        }
        let lookback = self.period - 1;
        if inputs.len() <= lookback {
            return Ok(Vec::new());
        }
        let len = inputs.len() - lookback;
        let zero = T::zero();
        let mut outputs: Vec<T> = Vec::with_capacity(len);
        let mut i: usize = 0;
        while i < len
            invariant
                i <= len,
                outputs@.len() == i,
            decreases len - i,
        {
            outputs.push(zero);
            i += 1;
        }
        match self.compute(inputs, outputs.as_mut_slice()) {
            Ok(count) => {
                proof {
                    assert(outputs@ =~= batch_means(inputs@, self@.period));
                }
                outputs.truncate(count);
                Ok(outputs)
            },
            Err(e) => Err(e),
        }
    }

    /// Takes one input and returns the mean of the last `period` inputs once that many
    /// have been seen. A non-finite input resets the indicator and yields nothing.
    pub fn next(&mut self, input: T) -> (r: Option<T>)
        ensures
            valid(final(self)@),
            final(self)@ == advance(old(self)@, input),
            r == emitted(final(self)@),
    {
        proof {
            use_type_invariant(&*self);
        }
        if !input.is_finite() {
            self.reset();
            return None;
        }
        let ghost before = self@;
        let ghost buf = self.buffer@;
        let period = self.period;
        let idx = self.cursor.index;
        let count = self.cursor.count;
        let was_full = count == period;
        let mut sum = self.sum;
        if was_full {
            sum = sum.minus(self.buffer[idx]);
        }
        self.buffer[idx] = input;
        self.sum = sum.plus(input);
        let next_index = if idx + 1 == period {
            0
        } else {
            idx + 1
        };
        let next_count = if was_full {
            count
        } else {
            count + 1
        };
        self.cursor = Cursor { index: next_index, count: next_count };
        proof {
            assert(self.buffer@ == buf.update(idx as int, input));
            if was_full {
                assert(before.window[0] == buf[idx as int]);
                assert(self@.window =~= before.window.drop_first().push(input));
            } else {
                assert(self@.window =~= before.window.push(input));
            }
        }
        if next_count == period {
            Some(self.sum.div_count(period))
        } else {
            None
        }
    }

    /// Applies `next` to each input in order and returns every result.
    pub fn stream(&mut self, inputs: &[T]) -> (r: Vec<Option<T>>)
        ensures
            valid(final(self)@),
            final(self)@ == run(old(self)@, inputs@),
            r@ == outputs(old(self)@, inputs@),
    {
        proof {
            use_type_invariant(&*self);
        }
        let ghost start = self@;
        let mut results: Vec<Option<T>> = Vec::with_capacity(inputs.len());
        let mut i: usize = 0;
        while i < inputs.len()
            invariant
                i <= inputs@.len(),
                valid(self@),
                self@ == run(start, inputs@.subrange(0, i as int)),
                results@ == outputs(start, inputs@.subrange(0, i as int)),
            decreases inputs@.len() - i,
        {
            let out = self.next(inputs[i]);
            results.push(out);
            proof {
                assert(inputs@.subrange(0, i + 1).drop_last() =~= inputs@.subrange(0, i as int));
            }
            i += 1;
        }
        proof {
            assert(inputs@.subrange(0, inputs@.len() as int) =~= inputs@);
        }
        results
    }

    /// Returns the indicator to the state it had right after construction. Old buffer
    /// contents stay in memory but are no longer part of the window.
    pub fn reset(&mut self)
        ensures
            valid(final(self)@),
            final(self)@ == reset_state(old(self)@),
    {
        proof {
            use_type_invariant(&*self);
        }
        self.sum = T::zero();
        self.cursor = Cursor { index: 0, count: 0 };
        proof {
            assert(self@.window =~= Seq::<T>::empty());
        }
    }
}

impl<T: Sample> Indicator<1> for Sma<T> {
    type Input = T;

    type Output = T;

    fn lookback(&self) -> usize {
        Sma::lookback(self)
    }

    fn compute(&self, inputs: &[T], outputs: &mut [T]) -> Result<usize> {
        Sma::compute(self, inputs, outputs)
    }

    fn compute_to_vec(&self, inputs: &[T]) -> Result<Vec<T>> {
        Sma::compute_to_vec(self, inputs)
    }

    fn next(&mut self, input: T) -> Option<T> {
        Sma::next(self, input)
    }

    fn stream(&mut self, inputs: &[T]) -> Vec<Option<T>> {
        Sma::stream(self, inputs)
    }
}

impl<T: Sample> Resettable for Sma<T> {
    fn reset(&mut self) {
        Sma::reset(self)
    }
}

} // verus!
