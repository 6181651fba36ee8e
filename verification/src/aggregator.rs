//! Rate aggregation.
//!
//! The aggregator folds the stream of decoded packet records into rate
//! samples. It accumulates packet and byte counters in a bucket and flushes
//! the bucket into a sample whenever the elapsed time since the previous
//! flush reaches the configured minimum reporting period, or at end of
//! stream when more than one packet is left over. A single leftover packet at
//! end of stream is dropped: it spans no duration, so no rate can be formed
//! from it.
//!
//! Samples carry exact integers: the packet and byte counts of the bucket
//! and the bucket's duration in nanoseconds. The surrounding tool divides
//! them into floating-point rates.

use vstd::prelude::*;

use crate::errors::PipelineError;
use crate::timestamp::{diff_nanos, AbsoluteTimestamp};

verus! {

/// One emitted sample: a flushed bucket.
///
/// The rates of the reported period are the three counts each divided by
/// `bucket_nanos` (as seconds); that division is left to the caller, which
/// works in floating point.
#[derive(Clone, Copy, Debug, PartialEq, Eq, Structural)]
pub struct RateSample {
    /// Microseconds from the first packet of the stream to the packet that
    /// closed this bucket.
    pub elapsed_micros: i64,
    /// Duration of this bucket in nanoseconds: the time from the previous
    /// flush to the packet that closed this bucket. Positive.
    pub bucket_nanos: i64,
    /// Packets counted into this bucket.
    pub packets: u32,
    /// Wire bytes counted into this bucket.
    pub wire_bytes: u32,
    /// Captured bytes counted into this bucket.
    pub captured_bytes: u32,
}

/// The aggregator's running state.
#[derive(Clone, Copy, Debug, PartialEq, Eq, Structural)]
pub struct Bucket {
    /// Whether any packet has been observed yet.
    pub saw_first: bool,
    /// Timestamp of the first packet of the stream.
    pub first: AbsoluteTimestamp,
    /// Timestamp the current bucket is measured from: the packet that caused
    /// the previous flush, or the first packet.
    pub prev_flush: AbsoluteTimestamp,
    /// Timestamp of the most recent packet.
    pub last: AbsoluteTimestamp,
    /// Packets in the current bucket.
    pub packets: u32,
    /// Wire bytes in the current bucket.
    pub wire_bytes: u32,
    /// Captured bytes in the current bucket.
    pub captured_bytes: u32,
}

/// The state the aggregator starts from: no packet seen, all counters zero,
/// all timestamps at the epoch sentinel.
pub open spec fn initial_bucket() -> Bucket {
    Bucket {
        saw_first: false,
        first: AbsoluteTimestamp { secs: 0, nanos: 0 },
        prev_flush: AbsoluteTimestamp { secs: 0, nanos: 0 },
        last: AbsoluteTimestamp { secs: 0, nanos: 0 },
        packets: 0,
        wire_bytes: 0,
        captured_bytes: 0,
    }
}

/// Truncating division of a signed nanosecond count by 1000, toward zero:
/// how a nanosecond duration reads in whole microseconds.
pub open spec fn nanos_to_micros(d: int) -> int {
    if d >= 0 {
        d / 1000
    } else {
        -((-d) / 1000)
    }
}

/// The sample a flush of bucket `b` produces, where `elapsed` is the
/// bucket's duration in nanoseconds. Durations that do not fit the sample's
/// signed 64-bit fields are rejected.
pub open spec fn spec_flush_sample(b: Bucket, elapsed: int) -> Result<RateSample, PipelineError> {
    let since_first = nanos_to_micros(diff_nanos(b.last, b.first));
    if elapsed > i64::MAX || since_first > i64::MAX || since_first < i64::MIN {
        Err(PipelineError::DurationOverflow)
    } else {
        Ok(RateSample {
            elapsed_micros: since_first as i64,
            bucket_nanos: elapsed as i64,
            packets: b.packets,
            wire_bytes: b.wire_bytes,
            captured_bytes: b.captured_bytes,
        })
    }
}

/// The bucket after a flush at timestamp `ts`: counters cleared, the new
/// bucket measured from `ts`.
pub open spec fn spec_reset(b: Bucket, ts: AbsoluteTimestamp) -> Bucket {
    Bucket { prev_flush: ts, packets: 0, wire_bytes: 0, captured_bytes: 0, ..b }
}

/// The aggregator's transition on one packet record: note the first packet,
/// accumulate the counters, and flush if the reporting period has elapsed
/// since the previous flush. The packet that crosses the period is counted
/// into the bucket it closes.
pub open spec fn spec_on_packet(
    b: Bucket,
    wire_bytes: u32,
    captured_bytes: u32,
    ts: AbsoluteTimestamp,
    period_nanos: u64,
) -> Result<(Bucket, Option<RateSample>), PipelineError> {
    let started = if !b.saw_first {
        Bucket { saw_first: true, first: ts, prev_flush: ts, ..b }
    } else {
        b
    };
    if started.packets + 1 > u32::MAX || started.wire_bytes + wire_bytes > u32::MAX
        || started.captured_bytes + captured_bytes > u32::MAX {
        Err(PipelineError::CounterOverflow)
    } else {
        let filled = Bucket {
            last: ts,
            packets: (started.packets + 1) as u32,
            wire_bytes: (started.wire_bytes + wire_bytes) as u32,
            captured_bytes: (started.captured_bytes + captured_bytes) as u32,
            ..started
        };
        let elapsed = diff_nanos(ts, started.prev_flush);
        if elapsed >= period_nanos {
            match spec_flush_sample(filled, elapsed) {
                Ok(sample) => Ok((spec_reset(filled, ts), Some(sample))),
                Err(e) => Err(e),
            }
        } else {
            Ok((filled, None))
        }
    }
}

/// The aggregator's transition at end of stream: flush the leftover bucket
/// if the period has elapsed or more than one packet is left in it; a single
/// leftover packet is dropped. A leftover bucket flushed here over a zero or
/// negative duration admits no rate and is an error.
pub open spec fn spec_on_end(b: Bucket, period_nanos: u64) -> Result<(Bucket, Option<RateSample>), PipelineError> {
    let elapsed = diff_nanos(b.last, b.prev_flush);
    if elapsed >= period_nanos || b.packets > 1 {
        if elapsed <= 0 {
            Err(PipelineError::NonPositiveBucketDuration)
        } else {
            match spec_flush_sample(b, elapsed) {
                Ok(sample) => Ok((spec_reset(b, b.last), Some(sample))),
                Err(e) => Err(e),
            }
        }
    } else {
        Ok((b, None))
    }
}

impl Bucket {
    /// The starting state.
    pub fn new() -> (r: Bucket)
        ensures
            r == initial_bucket(),
    {
        Bucket {
            saw_first: false,
            first: AbsoluteTimestamp::epoch(),
            prev_flush: AbsoluteTimestamp::epoch(),
            last: AbsoluteTimestamp::epoch(),
            packets: 0,
            wire_bytes: 0,
            captured_bytes: 0,
        }
    }

    /// Fold one packet record into the bucket; a sample comes back when this
    /// packet closed the bucket. On an error the run aborts, so the state
    /// left behind is unspecified.
    pub fn on_packet(
        &mut self,
        wire_bytes: u32,
        captured_bytes: u32,
        ts: AbsoluteTimestamp,
        period_nanos: u64,
    ) -> (r: Result<Option<RateSample>, PipelineError>)
        ensures
            match spec_on_packet(*old(self), wire_bytes, captured_bytes, ts, period_nanos) {
                Ok((b, sample)) => r == Ok::<Option<RateSample>, PipelineError>(sample)
                    && *final(self) == b,
                Err(e) => r == Err::<Option<RateSample>, PipelineError>(e),
            },
    {
        if !self.saw_first {
            self.saw_first = true;
            self.first = ts;
            self.prev_flush = ts;
        }
        if self.packets == u32::MAX {
            return Err(PipelineError::CounterOverflow);
        }
        let wide_wire: u64 = self.wire_bytes as u64 + wire_bytes as u64;
        let wide_cap: u64 = self.captured_bytes as u64 + captured_bytes as u64;
        if wide_wire > u32::MAX as u64 || wide_cap > u32::MAX as u64 {
            return Err(PipelineError::CounterOverflow);
        }
        self.packets = self.packets + 1;
        self.wire_bytes = wide_wire as u32;
        self.captured_bytes = wide_cap as u32;
        self.last = ts;
        let elapsed: i128 = ts.sub_nanos(self.prev_flush);
        if elapsed >= period_nanos as i128 {
            let sample = self.flush_sample(elapsed)?;
            self.packets = 0;
            self.wire_bytes = 0;
            self.captured_bytes = 0;
            self.prev_flush = ts;
            Ok(Some(sample))
        } else {
            Ok(None)
        }
    }

    /// Close the stream: flush what the EOF rule says to flush.
    pub fn on_end(&mut self, period_nanos: u64) -> (r: Result<Option<RateSample>, PipelineError>)
        ensures
            match spec_on_end(*old(self), period_nanos) {
                Ok((b, sample)) => r == Ok::<Option<RateSample>, PipelineError>(sample)
                    && *final(self) == b,
                Err(e) => r == Err::<Option<RateSample>, PipelineError>(e),
            },
    {
        let elapsed: i128 = self.last.sub_nanos(self.prev_flush);
        if elapsed >= period_nanos as i128 || self.packets > 1 {
            if elapsed <= 0 {
                return Err(PipelineError::NonPositiveBucketDuration);
            }
            let sample = self.flush_sample(elapsed)?;
            self.packets = 0;
            self.wire_bytes = 0;
            self.captured_bytes = 0;
            self.prev_flush = self.last;
            Ok(Some(sample))
        } else {
            Ok(None)
        }
    }

    /// Build the sample for a flush of this bucket over `elapsed`
    /// nanoseconds.
    fn flush_sample(&self, elapsed: i128) -> (r: Result<RateSample, PipelineError>)
        ensures
            r == spec_flush_sample(*self, elapsed as int),
    {
        let since_first_nanos: i128 = self.last.sub_nanos(self.first);
        let since_first: i128 = if since_first_nanos >= 0 {
            since_first_nanos / 1000
        } else {
            -((-since_first_nanos) / 1000)
        };
        assert(since_first == nanos_to_micros(diff_nanos(self.last, self.first)));
        if elapsed > i64::MAX as i128 || since_first > i64::MAX as i128
            || since_first < i64::MIN as i128 {
            Err(PipelineError::DurationOverflow)
        } else {
            Ok(RateSample {
                elapsed_micros: since_first as i64,
                bucket_nanos: elapsed as i64,
                packets: self.packets,
                wire_bytes: self.wire_bytes,
                captured_bytes: self.captured_bytes,
            })
        }
    }
}

} // verus!
