//! The audio capture buffer: a ring of samples between the capture callback
//! and the analysis.
//!
//! The ring is `ringbuf`'s lock-free queue for one producer and one
//! consumer. A sample is kept as the 32 bits of its floating-point value.

use vstd::prelude::*;
use ringbuf::Consumer;
use ringbuf::Producer;
use ringbuf::RingBuffer;

verus! {

/// `ringbuf::Producer`, the end of a ring that items are pushed into.
#[verifier::external_type_specification]
#[verifier::external_body]
#[verifier::reject_recursive_types(T)]
pub struct ExProducer<T>(ringbuf::Producer<T>);

/// `ringbuf::Consumer`, the end of a ring that items are popped from.
#[verifier::external_type_specification]
#[verifier::external_body]
#[verifier::reject_recursive_types(T)]
pub struct ExConsumer<T>(ringbuf::Consumer<T>);

/// Whether the two ends belong to one ring.
pub uninterp spec fn ring_paired(ends: (Producer<u32>, Consumer<u32>)) -> bool;

/// The samples that the ring of these two ends holds, oldest first.
pub uninterp spec fn ring_items(ends: (Producer<u32>, Consumer<u32>)) -> Seq<u32>;

/// The number of samples that the ring of these two ends was made for.
pub uninterp spec fn ring_capacity(ends: (Producer<u32>, Consumer<u32>)) -> nat;

/// The number of samples that the ring of this consuming end was made for.
/// It is fixed when the ring is made, whatever either end does.
pub uninterp spec fn end_capacity(end: Consumer<u32>) -> nat;

/// Calls `RingBuffer::new` and `RingBuffer::split`: both ends of a new,
/// empty ring for `capacity` samples. The ring allocates one slot more than
/// `capacity`, which has to fit in memory.
#[verifier::external_body]
fn ring_new(capacity: usize) -> (ends: (Producer<u32>, Consumer<u32>))
    requires
        (capacity + 1) * 4 <= isize::MAX,
    ensures
        ring_paired(ends),
        ring_items(ends) == Seq::<u32>::empty(),
        ring_capacity(ends) == capacity,
        end_capacity(ends.1) == capacity,
{
    RingBuffer::new(capacity).split()
}

/// Calls `Producer::push_slice` on a ring whose two ends are held together:
/// as many of `samples` as there is room for are appended, in order, and
/// their number is returned.
#[verifier::external_body]
fn ring_push(ends: &mut (Producer<u32>, Consumer<u32>), samples: &[u32]) -> (count: usize)
    requires
        ring_paired(*old(ends)),
        ring_items(*old(ends)).len() <= ring_capacity(*old(ends)),
    ensures
        ring_paired(*final(ends)),
        ring_capacity(*final(ends)) == ring_capacity(*old(ends)),
        end_capacity(final(ends).1) == end_capacity(old(ends).1),
        count <= samples@.len(),
        count <= ring_capacity(*old(ends)) - ring_items(*old(ends)).len(),
        count == samples@.len() || count == ring_capacity(*old(ends)) - ring_items(
            *old(ends),
        ).len(),
        ring_items(*final(ends)) == ring_items(*old(ends)) + samples@.take(count as int),
    no_unwind
{
    ends.0.push_slice(samples)
}

/// Calls `Consumer::pop_slice` on a ring whose two ends are held together:
/// the oldest samples are moved to the front of `out`, as many as `out` has
/// room for, and their number is returned. The rest of `out` is left as it
/// was.
#[verifier::external_body]
fn ring_pop(ends: &mut (Producer<u32>, Consumer<u32>), out: &mut Vec<u32>) -> (count: usize)
    requires
        ring_paired(*old(ends)),
    ensures
        ring_paired(*final(ends)),
        ring_capacity(*final(ends)) == ring_capacity(*old(ends)),
        end_capacity(final(ends).1) == end_capacity(old(ends).1),
        count <= old(out)@.len(),
        count <= ring_items(*old(ends)).len(),
        count == old(out)@.len() || count == ring_items(*old(ends)).len(),
        final(out)@ == ring_items(*old(ends)).take(count as int) + old(out)@.skip(count as int),
        ring_items(*final(ends)) == ring_items(*old(ends)).skip(count as int),
    no_unwind
{
    ends.1.pop_slice(out)
}

/// Calls `Consumer::len` on a ring whose two ends are held together: the
/// number of samples that the ring holds.
#[verifier::external_body]
fn ring_len(ends: &(Producer<u32>, Consumer<u32>)) -> (count: usize)
    requires
        ring_paired(*ends),
    ensures
        count == ring_items(*ends).len(),
{
    ends.1.len()
}

/// Calls `Consumer::pop_each` with a closure that takes every sample, on a
/// ring whose two ends are held together: the ring is emptied, and the number
/// of samples that it held is returned.
#[verifier::external_body]
fn ring_clear(ends: &mut (Producer<u32>, Consumer<u32>)) -> (count: usize)
    requires
        ring_paired(*old(ends)),
    ensures
        ring_paired(*final(ends)),
        ring_capacity(*final(ends)) == ring_capacity(*old(ends)),
        end_capacity(final(ends).1) == end_capacity(old(ends).1),
        count == ring_items(*old(ends)).len(),
        ring_items(*final(ends)) == Seq::<u32>::empty(),
    no_unwind
{
    ends.1.pop_each(|_| true, None)
}

/// Calls `Producer::push_slice` on the producing end alone. The other end
/// may pop at any time, so of the number of samples that were taken only
/// this holds: it is no more than were offered.
#[verifier::external_body]
fn producer_push(end: &mut Producer<u32>, samples: &[u32]) -> (count: usize)
    ensures
        count <= samples@.len(),
{
    end.push_slice(samples)
}

/// Calls `Consumer::len` on the consuming end alone. The other end may push
/// at any time, so of the number only this holds: it is no more than the
/// ring was made for.
#[verifier::external_body]
fn consumer_len(end: &Consumer<u32>) -> (count: usize)
    ensures
        count <= end_capacity(*end),
{
    end.len()
}

/// Calls `Consumer::pop_slice` on the consuming end alone: the number of
/// samples that were moved to the front of `out` is no more than `out` has
/// room for and no more than the ring was made for, and the rest of `out`
/// is left as it was.
#[verifier::external_body]
fn consumer_pop(end: &mut Consumer<u32>, out: &mut Vec<u32>) -> (count: usize)
    ensures
        count <= old(out)@.len(),
        count <= end_capacity(*old(end)),
        end_capacity(*final(end)) == end_capacity(*old(end)),
        final(out)@.len() == old(out)@.len(),
        final(out)@.skip(count as int) == old(out)@.skip(count as int),
{
    end.pop_slice(out)
}

/// Calls `Consumer::pop_each` with a closure that takes every sample, on the
/// consuming end alone. Of the number of samples that were discarded only
/// this holds: it is no more than the ring was made for.
#[verifier::external_body]
fn consumer_clear(end: &mut Consumer<u32>) -> (count: usize)
    ensures
        count <= end_capacity(*old(end)),
        end_capacity(*final(end)) == end_capacity(*old(end)),
{
    end.pop_each(|_| true, None)
}

/// The smaller of two numbers.
pub open spec fn smaller(a: nat, b: nat) -> nat {
    if a <= b {
        a
    } else {
        b
    }
}

/// How many of `offered` samples a ring for `capacity` samples takes when it
/// holds `held` already: those that there is room for.
pub open spec fn accepted(held: nat, capacity: nat, offered: nat) -> nat {
    if held >= capacity {
        0
    } else {
        smaller(offered, (capacity - held) as nat)
    }
}

/// The samples in a ring after `samples` were pushed: what it held, then as
/// many of `samples` as there was room for. What does not fit is dropped
/// from the end of `samples`.
pub open spec fn after_push(held: Seq<u32>, capacity: nat, samples: Seq<u32>) -> Seq<u32> {
    held + samples.take(accepted(held.len(), capacity, samples.len()) as int)
}

/// The samples that a pop of `count` hands out: the oldest ones, as many as
/// there are.
pub open spec fn popped(held: Seq<u32>, count: nat) -> Seq<u32> {
    held.take(smaller(count, held.len()) as int)
}

/// The samples in a ring after a pop of `count`.
pub open spec fn after_pop(held: Seq<u32>, count: nat) -> Seq<u32> {
    held.skip(smaller(count, held.len()) as int)
}

/// The overrun count after a push that took `taken` of `offered` samples:
/// one more where some were dropped, and never past the largest `u64`.
pub open spec fn overruns_after(before: u64, offered: nat, taken: nat) -> u64 {
    if taken < offered && before < u64::MAX {
        (before + 1) as u64
    } else {
        before
    }
}

/// Whether a ring for `capacity` samples, with its one spare slot, can be
/// allocated.
pub open spec fn capacity_fits(capacity: nat) -> bool {
    (capacity + 1) * 4 <= isize::MAX
}

/// The overrun count after a push that took `taken` of `offered` samples.
fn count_overrun(overruns: u64, offered: usize, taken: usize) -> (counted: u64)
    ensures
        counted == overruns_after(overruns, offered as nat, taken as nat),
{
    if taken < offered && overruns < u64::MAX {
        overruns + 1
    } else {
        overruns
    }
}

/// The room that a pop of `count` samples asks the ring to fill, when the
/// ring says that it holds `held`: the smaller of the two.
pub fn window_room(count: usize, held: usize) -> (room: usize)
    ensures
        room == smaller(count as nat, held as nat),
{
    if count <= held {
        count
    } else {
        held
    }
}

/// What a pop hands back of the room `out` that it gave the ring, when the
/// ring moved `moved` samples into it: the first `moved` of `out`, and all
/// of it where it holds no more.
pub fn window_taken(out: Vec<u32>, moved: usize) -> (samples: Vec<u32>)
    ensures
        samples@ == out@.take(smaller(moved as nat, out@.len()) as int),
{
    let mut samples = out;
    samples.truncate(moved);
    assert(samples@ =~= out@.take(smaller(moved as nat, out@.len()) as int));
    samples
}

/// A capture buffer whose two ends are held together. Nothing else can push
/// or pop then, so it is a plain queue: `push` appends what fits, `pop`
/// takes from the front.
pub struct AudioCaptureBuffer {
    ends: (Producer<u32>, Consumer<u32>),
    capacity: usize,
    overruns: u64,
}

/// The producing end of a capture buffer, for the capture callback.
pub struct CaptureProducer {
    end: Producer<u32>,
    overruns: u64,
}

/// The consuming end of a capture buffer, for the analysis.
pub struct CaptureConsumer {
    end: Consumer<u32>,
}

impl View for AudioCaptureBuffer {
    type V = Seq<u32>;

    /// The samples that the buffer holds, oldest first.
    closed spec fn view(&self) -> Seq<u32> {
        ring_items(self.ends)
    }
}

impl AudioCaptureBuffer {
    #[verifier::type_invariant]
    spec fn well_formed(self) -> bool {
        &&& ring_paired(self.ends)
        &&& ring_items(self.ends).len() <= ring_capacity(self.ends)
        &&& ring_capacity(self.ends) == self.capacity
        &&& end_capacity(self.ends.1) == self.capacity
    }

    /// The number of samples that the buffer was made for.
    pub closed spec fn spec_capacity(&self) -> nat {
        self.capacity as nat
    }

    /// The number of pushes that had to drop samples.
    pub closed spec fn spec_overruns(&self) -> u64 {
        self.overruns
    }

    /// Makes an empty buffer for one second of audio at `sample_rate`
    /// samples per second, or nothing where a buffer of that size cannot be
    /// allocated.
    pub fn new(sample_rate: u32) -> (buffer: Option<AudioCaptureBuffer>)
        ensures
            buffer.is_some() <==> capacity_fits(sample_rate as nat),
            buffer matches Some(b) ==> b@ == Seq::<u32>::empty() && b.spec_capacity()
                == sample_rate && b.spec_overruns() == 0,
    {
        let limit: usize = (isize::MAX as usize) / 4;
        if sample_rate as u64 >= limit as u64 {
            return None;
        }
        let capacity: usize = sample_rate as usize;
        let ends = ring_new(capacity);
        Some(AudioCaptureBuffer { ends, capacity, overruns: 0 })
    }

    /// The number of samples that the buffer was made for.
    pub fn capacity(&self) -> (capacity: usize)
        ensures
            capacity == self.spec_capacity(),
    {
        self.capacity
    }

    /// The number of pushes that had to drop samples.
    pub fn overruns(&self) -> (overruns: u64)
        ensures
            overruns == self.spec_overruns(),
    {
        self.overruns
    }

    /// The number of samples that the buffer holds: never more than it
    /// was made for.
    pub fn available_len(&self) -> (count: usize)
        ensures
            count == self@.len(),
            count <= self.spec_capacity(),
    {
        proof {
            use_type_invariant(self);
        }
        ring_len(&self.ends)
    }

    /// Appends as many of `samples` as there is room for, in order, and
    /// returns their number. The rest is dropped, and the drop is counted as
    /// one overrun.
    pub fn push(&mut self, samples: &[u32]) -> (taken: usize)
        ensures
            taken == accepted(old(self)@.len(), old(self).spec_capacity(), samples@.len()),
            final(self)@ == after_push(old(self)@, old(self).spec_capacity(), samples@),
            final(self).spec_capacity() == old(self).spec_capacity(),
            final(self).spec_overruns() == overruns_after(
                old(self).spec_overruns(),
                samples@.len(),
                taken as nat,
            ),
    {
        proof {
            use_type_invariant(&*self);
        }
        let taken = ring_push(&mut self.ends, samples);
        self.overruns = count_overrun(self.overruns, samples.len(), taken);
        taken
    }

    /// Takes the `count` oldest samples out of the buffer, or all of them
    /// where it holds fewer.
    pub fn pop(&mut self, count: usize) -> (samples: Vec<u32>)
        ensures
            samples@ == popped(old(self)@, count as nat),
            final(self)@ == after_pop(old(self)@, count as nat),
            final(self).spec_capacity() == old(self).spec_capacity(),
            final(self).spec_overruns() == old(self).spec_overruns(),
    {
        proof {
            use_type_invariant(&*self);
        }
        let held = ring_len(&self.ends);
        let wanted = if count <= held {
            count
        } else {
            held
        };
        let mut samples: Vec<u32> = vec![0u32; wanted];
        let moved = ring_pop(&mut self.ends, &mut samples);
        assert(moved == wanted);
        assert(samples@ =~= popped(old(self)@, count as nat));
        samples
    }

    /// Discards every sample that the buffer holds.
    pub fn clear(&mut self)
        ensures
            final(self)@ == Seq::<u32>::empty(),
            final(self).spec_capacity() == old(self).spec_capacity(),
            final(self).spec_overruns() == old(self).spec_overruns(),
    {
        proof {
            use_type_invariant(&*self);
        }
        let _ = ring_clear(&mut self.ends);
    }

    /// Parts the buffer into its two ends, one for the capture callback and
    /// one for the analysis. From then on each end may be used while the
    /// other is, and neither knows what the other has done.
    pub fn split(self) -> (ends: (CaptureProducer, CaptureConsumer))
        ensures
            ends.0.spec_overruns() == self.spec_overruns(),
            ends.1.spec_capacity() == self.spec_capacity(),
    {
        proof {
            use_type_invariant(&self);
        }
        let AudioCaptureBuffer { ends, capacity: _, overruns } = self;
        let (producer, consumer) = ends;
        (CaptureProducer { end: producer, overruns }, CaptureConsumer { end: consumer })
    }
}

impl CaptureProducer {
    /// The number of pushes that had to drop samples.
    pub closed spec fn spec_overruns(&self) -> u64 {
        self.overruns
    }

    /// Appends as many of `samples` as there is room for, in order, and
    /// returns their number. The rest is dropped, and the drop is counted as
    /// one overrun. It neither blocks nor allocates.
    pub fn push(&mut self, samples: &[u32]) -> (taken: usize)
        ensures
            taken <= samples@.len(),
            final(self).spec_overruns() == overruns_after(
                old(self).spec_overruns(),
                samples@.len(),
                taken as nat,
            ),
    {
        let taken = producer_push(&mut self.end, samples);
        self.overruns = count_overrun(self.overruns, samples.len(), taken);
        taken
    }

    /// The number of pushes that had to drop samples.
    pub fn overruns(&self) -> (overruns: u64)
        ensures
            overruns == self.spec_overruns(),
    {
        self.overruns
    }
}

impl CaptureConsumer {
    /// The number of samples that the buffer was made for. It stays the
    /// same for as long as the buffer lives.
    pub closed spec fn spec_capacity(&self) -> nat {
        end_capacity(self.end)
    }

    /// The number of samples that the buffer held when it was asked: never
    /// more than it was made for. More may have come since.
    pub fn available_len(&self) -> (count: usize)
        ensures
            count <= self.spec_capacity(),
    {
        consumer_len(&self.end)
    }

    /// Takes up to `count` of the oldest samples out of the buffer: all
    /// `count` where the buffer holds as many, else those it holds.
    ///
    /// The buffer is asked how many it holds and is given room for the
    /// smaller of that and `count` (`window_room`); what it moved into the
    /// room is handed back (`window_taken`).
    pub fn pop(&mut self, count: usize) -> (samples: Vec<u32>)
        ensures
            samples@.len() <= count,
            samples@.len() <= old(self).spec_capacity(),
            final(self).spec_capacity() == old(self).spec_capacity(),
    {
        let held = consumer_len(&self.end);
        let mut samples: Vec<u32> = vec![0u32; window_room(count, held)];
        let moved = consumer_pop(&mut self.end, &mut samples);
        window_taken(samples, moved)
    }

    /// Discards every sample that the buffer holds, and returns how many
    /// there were: never more than the buffer was made for.
    pub fn clear(&mut self) -> (discarded: usize)
        ensures
            discarded <= old(self).spec_capacity(),
            final(self).spec_capacity() == old(self).spec_capacity(),
    {
        consumer_clear(&mut self.end)
    }
}

/// Ring buffer ordering, for pushes: two pushes in a row leave in the buffer
/// what one push of both slices, the first before the second, leaves there.
pub proof fn lemma_push_push(held: Seq<u32>, capacity: nat, first: Seq<u32>, second: Seq<u32>)
    ensures
        after_push(after_push(held, capacity, first), capacity, second) == after_push(
            held,
            capacity,
            first + second,
        ),
{
    let one = after_push(held, capacity, first);
    let both = after_push(one, capacity, second);
    let joined = after_push(held, capacity, first + second);
    let a = accepted(held.len(), capacity, first.len());
    let b = accepted(one.len(), capacity, second.len());
    let c = accepted(held.len(), capacity, (first + second).len());
    assert(one.len() == held.len() + a);
    assert(c == a + b);
    assert(b > 0 ==> a == first.len());
    assert(both =~= joined);
}

/// Ring buffer ordering, for pops: two pops in a row hand out, the first
/// before the second, what one pop of both counts hands out, and leave the
/// same in the buffer.
pub proof fn lemma_pop_pop(held: Seq<u32>, first: nat, second: nat)
    ensures
        popped(held, first) + popped(after_pop(held, first), second) == popped(
            held,
            first + second,
        ),
        after_pop(after_pop(held, first), second) == after_pop(held, first + second),
{
    assert(popped(held, first) + popped(after_pop(held, first), second) =~= popped(
        held,
        first + second,
    ));
    assert(after_pop(after_pop(held, first), second) =~= after_pop(held, first + second));
}

/// Ring buffer ordering, from push to pop: an empty buffer that `samples`
/// were pushed into hands them out again in their order, none twice. Where
/// they all fit, popping as many gives all of them back; where they do not,
/// it gives back the first `capacity` of them: only the end is dropped.
pub proof fn lemma_push_then_pop(capacity: nat, samples: Seq<u32>, count: nat)
    ensures
        popped(after_push(Seq::<u32>::empty(), capacity, samples), count) == samples.take(
            smaller(count, smaller(samples.len(), capacity)) as int,
        ),
        samples.len() <= capacity ==> popped(
            after_push(Seq::<u32>::empty(), capacity, samples),
            samples.len(),
        ) == samples,
        popped(after_push(Seq::<u32>::empty(), capacity, samples), count) + after_pop(
            after_push(Seq::<u32>::empty(), capacity, samples),
            count,
        ) == samples.take(smaller(samples.len(), capacity) as int),
{
    let held = after_push(Seq::<u32>::empty(), capacity, samples);
    assert(held =~= samples.take(smaller(samples.len(), capacity) as int));
    assert(popped(held, count) =~= samples.take(
        smaller(count, smaller(samples.len(), capacity)) as int,
    ));
    if samples.len() <= capacity {
        assert(popped(held, samples.len()) =~= samples);
    }
    assert(popped(held, count) + after_pop(held, count) =~= held);
}

/// A pop and what it leaves behind are together what the buffer held, in
/// the same order: nothing is lost, moved or handed out twice.
pub proof fn lemma_pop_partitions(held: Seq<u32>, count: nat)
    ensures
        popped(held, count) + after_pop(held, count) == held,
{
    assert(popped(held, count) + after_pop(held, count) =~= held);
}

} // verus!
