//! The fatal conditions that abort a capture run.
//!
//! A capture run is an all-or-nothing batch job: any defect in the input or
//! any numeric anomaly terminates the whole run with one of these kinds, and
//! no partial result beyond the samples already emitted is promised.

use vstd::prelude::*;

verus! {

/// Everything that can end a run without a report.
#[derive(Clone, Copy, Debug, PartialEq, Eq, Structural)]
pub enum PipelineError {
    /// The leading bytes match neither a legacy pcap magic nor a pcapng
    /// section header.
    UnrecognizedFormat,
    /// The stream ends inside a block: a refill could not complete it.
    Truncated,
    /// A block's framing contradicts itself (bad length, bad byte-order
    /// magic, or an option that overruns its block).
    MalformedBlock,
    /// A pcapng simple-packet block was met; that variant omits the length
    /// fields the aggregator requires.
    SimplePacketUnsupported,
    /// An interface declared a tick resolution whose divisor does not fit in
    /// 64 bits.
    UnsupportedResolution,
    /// A legacy record carries a microsecond field of one million or more.
    InvalidMicroseconds,
    /// A resolved timestamp's whole seconds exceed the signed 64-bit range.
    TimestampOutOfRange,
    /// An elapsed duration does not fit the sample's 64-bit fields.
    DurationOverflow,
    /// A bucket's packet or byte counter left the 32-bit range.
    CounterOverflow,
    /// A bucket was flushed at end of stream over a zero or negative
    /// duration, so no rate can be formed.
    NonPositiveBucketDuration,
}

impl PipelineError {
    /// A short label for the surrounding tool to print.
    pub fn describe(&self) -> (r: &'static str)
        ensures
            match self {
                PipelineError::UnrecognizedFormat => r@ == "input is neither a pcap nor a pcapng capture"@,
                PipelineError::Truncated => r@ == "capture ends inside a block"@,
                PipelineError::MalformedBlock => r@ == "capture contains a malformed block"@,
                PipelineError::SimplePacketUnsupported => r@ == "pcapng file contains simple packets, which are unsupported"@,
                PipelineError::UnsupportedResolution => r@ == "interface declares an unsupported timestamp resolution"@,
                PipelineError::InvalidMicroseconds => r@ == "legacy record carries an out-of-range microsecond field"@,
                PipelineError::TimestampOutOfRange => r@ == "resolved timestamp exceeds the representable range"@,
                PipelineError::DurationOverflow => r@ == "elapsed duration exceeds the representable range"@,
                PipelineError::CounterOverflow => r@ == "packet or byte counter overflowed"@,
                PipelineError::NonPositiveBucketDuration => r@ == "bucket flushed over a non-positive duration"@,
            },
    {
        match self {
            PipelineError::UnrecognizedFormat => "input is neither a pcap nor a pcapng capture",
            PipelineError::Truncated => "capture ends inside a block",
            PipelineError::MalformedBlock => "capture contains a malformed block",
            PipelineError::SimplePacketUnsupported => "pcapng file contains simple packets, which are unsupported",
            PipelineError::UnsupportedResolution => "interface declares an unsupported timestamp resolution",
            PipelineError::InvalidMicroseconds => "legacy record carries an out-of-range microsecond field",
            PipelineError::TimestampOutOfRange => "resolved timestamp exceeds the representable range",
            PipelineError::DurationOverflow => "elapsed duration exceeds the representable range",
            PipelineError::CounterOverflow => "packet or byte counter overflowed",
            PipelineError::NonPositiveBucketDuration => "bucket flushed over a non-positive duration",
        }
    }
}

} // verus!
