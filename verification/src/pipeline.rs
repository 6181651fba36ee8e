//! The capture pipeline: classify the blocks of the byte stream, decode the
//! packet records they carry, and aggregate them into rate samples.
//!
//! The whole run is specified by `spec_run`, a mathematical interpreter of
//! the byte stream, and `run` is proved to return exactly its value. The
//! interpreter mirrors the structure of the two capture formats:
//!
//! - a legacy capture is a 24-byte global header followed by records of a
//!   16-byte header (seconds, microseconds, captured length, wire length)
//!   and the captured bytes;
//! - a pcapng capture is a sequence of blocks, each framed by a 32-bit type,
//!   a 32-bit total length and a trailing copy of that length. A section
//!   header block fixes the byte order of its section; an interface
//!   description block announces the timestamp resolution of subsequent
//!   packets; an enhanced packet block carries a packet record; a simple
//!   packet block is an unsupported variant and fatal; any other block is
//!   skipped.

use vstd::prelude::*;

use crate::aggregator::{initial_bucket, spec_on_end, spec_on_packet, Bucket, RateSample};
use crate::bytes::{le32, read_u16, read_u32, word16, word32};
use crate::errors::PipelineError;
use crate::resolver::{
    micro_resolution, spec_decode_legacy, spec_resolution_from, spec_resolve, ticks_of, Resolution,
};
use crate::timestamp::{diff_nanos, AbsoluteTimestamp};

verus! {

/// The capture format a run detected.
#[derive(Clone, Copy, Debug, PartialEq, Eq, Structural)]
pub enum CaptureFormat {
    Unknown,
    Pcap,
    Pcapng,
}

impl CaptureFormat {
    /// The format's conventional name.
    pub fn label(&self) -> (r: &'static str)
        ensures
            match self {
                CaptureFormat::Unknown => r@ == "unknown"@,
                CaptureFormat::Pcap => r@ == "pcap"@,
                CaptureFormat::Pcapng => r@ == "pcapng"@,
            },
    {
        match self {
            CaptureFormat::Unknown => "unknown",
            CaptureFormat::Pcap => "pcap",
            CaptureFormat::Pcapng => "pcapng",
        }
    }
}

/// What a completed run hands to the caller: the samples in emission order
/// and the two summary values.
#[derive(Debug, PartialEq, Eq)]
pub struct CaptureReport {
    /// The emitted samples, in order.
    pub samples: Vec<RateSample>,
    /// The detected capture format.
    pub format: CaptureFormat,
    /// Timestamp of the first packet (the epoch if the capture held none).
    pub first_packet: AbsoluteTimestamp,
    /// Timestamp of the packet that caused the last flush (the first packet
    /// if none was flushed; the epoch if the capture held none).
    pub last_flush: AbsoluteTimestamp,
}

/// The mathematical value of a report.
#[verifier::ext_equal]
pub struct ReportModel {
    pub samples: Seq<RateSample>,
    pub format: CaptureFormat,
    pub first_packet: AbsoluteTimestamp,
    pub last_flush: AbsoluteTimestamp,
}

/// The model a concrete report denotes.
pub open spec fn report_model(rep: CaptureReport) -> ReportModel {
    ReportModel {
        samples: rep.samples@,
        format: rep.format,
        first_packet: rep.first_packet,
        last_flush: rep.last_flush,
    }
}

impl CaptureReport {
    /// The total capture duration in nanoseconds: last flush minus first
    /// packet. `None` when the difference leaves the signed 64-bit range,
    /// as it does when timestamps run backwards past the first packet.
    pub fn capture_duration_nanos(&self) -> (r: Option<i64>)
        ensures
            match r {
                Some(n) => n == diff_nanos(self.last_flush, self.first_packet),
                None => diff_nanos(self.last_flush, self.first_packet) > i64::MAX
                    || diff_nanos(self.last_flush, self.first_packet) < i64::MIN,
            },
    {
        let d: i128 = self.last_flush.sub_nanos(self.first_packet);
        if d > i64::MAX as i128 || d < i64::MIN as i128 {
            None
        } else {
            Some(d as i64)
        }
    }
}

/// A flushed sample as a sequence: one element, or none.
pub open spec fn sample_seq(s: Option<RateSample>) -> Seq<RateSample> {
    match s {
        Some(sample) => seq![sample],
        None => Seq::empty(),
    }
}

/// The model of the report a finished stream yields: the end-of-stream
/// flush applied to the leftover bucket.
pub open spec fn spec_finish(
    b: Bucket,
    acc: Seq<RateSample>,
    format: CaptureFormat,
    period_nanos: u64,
) -> Result<ReportModel, PipelineError> {
    match spec_on_end(b, period_nanos) {
        Ok((closed, s)) => Ok(ReportModel {
            samples: acc + sample_seq(s),
            format,
            first_packet: closed.first,
            last_flush: closed.prev_flush,
        }),
        Err(e) => Err(e),
    }
}

/// The value of running the legacy record stream of `bytes` from `pos` with
/// aggregator state `b`, having already emitted `acc`.
pub open spec fn spec_run_legacy(
    bytes: Seq<u8>,
    pos: int,
    big_endian: bool,
    b: Bucket,
    acc: Seq<RateSample>,
    period_nanos: u64,
) -> Result<ReportModel, PipelineError>
    decreases bytes.len() - pos,
{
    if bytes.len() <= pos {
        spec_finish(b, acc, CaptureFormat::Pcap, period_nanos)
    } else if bytes.len() - pos < 16 {
        Err(PipelineError::Truncated)
    } else {
        let caplen = word32(bytes, pos + 8, big_endian);
        if bytes.len() - pos - 16 < caplen {
            Err(PipelineError::Truncated)
        } else {
            match spec_decode_legacy(
                word32(bytes, pos, big_endian) as u32,
                word32(bytes, pos + 4, big_endian) as u32,
            ) {
                Err(e) => Err(e),
                Ok(ts) => match spec_on_packet(
                    b,
                    word32(bytes, pos + 12, big_endian) as u32,
                    caplen as u32,
                    ts,
                    period_nanos,
                ) {
                    Err(e) => Err(e),
                    Ok((b2, s)) => spec_run_legacy(
                        bytes,
                        pos + 16 + caplen,
                        big_endian,
                        b2,
                        acc + sample_seq(s),
                        period_nanos,
                    ),
                },
            }
        }
    }
}

/// Padded length of a pcapng option value: options are aligned to 32 bits.
pub open spec fn pad4(n: int) -> int {
    n + ((4 - n % 4) % 4)
}

/// The timestamp-resolution descriptor an interface description block's
/// option region declares, or the microsecond default when it declares
/// none. The region runs from `o` to `end`.
pub open spec fn spec_scan_tsresol(
    bytes: Seq<u8>,
    o: int,
    end: int,
    big_endian: bool,
) -> Result<u8, PipelineError>
    decreases end - o,
{
    if end <= o {
        Ok(6)
    } else if end - o < 4 {
        Err(PipelineError::MalformedBlock)
    } else {
        let code = word16(bytes, o, big_endian);
        let olen = word16(bytes, o + 2, big_endian);
        if code == 0 {
            Ok(6)
        } else if code == 9 && olen >= 1 {
            if o + 4 + olen > end {
                Err(PipelineError::MalformedBlock)
            } else {
                Ok(bytes[o + 4])
            }
        } else {
            if o + 4 + pad4(olen) > end {
                Err(PipelineError::MalformedBlock)
            } else {
                spec_scan_tsresol(bytes, o + 4 + pad4(olen), end, big_endian)
            }
        }
    }
}

/// The value of running the pcapng block stream of `bytes` from `pos`,
/// where `big_endian` is the current section's byte order and `res` the
/// currently active timestamp resolution.
pub open spec fn spec_run_ng(
    bytes: Seq<u8>,
    pos: int,
    big_endian: bool,
    res: Resolution,
    b: Bucket,
    acc: Seq<RateSample>,
    period_nanos: u64,
) -> Result<ReportModel, PipelineError>
    decreases bytes.len() - pos,
{
    if bytes.len() <= pos {
        spec_finish(b, acc, CaptureFormat::Pcapng, period_nanos)
    } else if bytes.len() - pos < 12 {
        Err(PipelineError::Truncated)
    } else {
        let btype = word32(bytes, pos, big_endian);
        if btype == 0x0A0D0D0A {
            // Section header: its byte-order magic fixes the new section's
            // byte order, in which its own lengths are read.
            let bom = le32(bytes, pos + 8);
            if bom == 0x1A2B3C4D || bom == 0x4D3C2B1A {
                let nbig = bom == 0x4D3C2B1A;
                let blen = word32(bytes, pos + 4, nbig);
                if blen < 12 {
                    Err(PipelineError::MalformedBlock)
                } else if bytes.len() - pos < blen {
                    Err(PipelineError::Truncated)
                } else if word32(bytes, pos + blen - 4, nbig) != blen {
                    Err(PipelineError::MalformedBlock)
                } else {
                    spec_run_ng(bytes, pos + blen, nbig, res, b, acc, period_nanos)
                }
            } else {
                Err(PipelineError::MalformedBlock)
            }
        } else {
            let blen = word32(bytes, pos + 4, big_endian);
            if blen < 12 {
                Err(PipelineError::MalformedBlock)
            } else if bytes.len() - pos < blen {
                Err(PipelineError::Truncated)
            } else if word32(bytes, pos + blen - 4, big_endian) != blen {
                Err(PipelineError::MalformedBlock)
            } else if btype == 6 {
                // Enhanced packet block.
                if blen < 32 {
                    Err(PipelineError::MalformedBlock)
                } else {
                    match spec_resolve(
                        res,
                        ticks_of(
                            word32(bytes, pos + 12, big_endian) as u32,
                            word32(bytes, pos + 16, big_endian) as u32,
                        ),
                    ) {
                        Err(e) => Err(e),
                        Ok(ts) => match spec_on_packet(
                            b,
                            word32(bytes, pos + 24, big_endian) as u32,
                            word32(bytes, pos + 20, big_endian) as u32,
                            ts,
                            period_nanos,
                        ) {
                            Err(e) => Err(e),
                            Ok((b2, s)) => spec_run_ng(
                                bytes,
                                pos + blen,
                                big_endian,
                                res,
                                b2,
                                acc + sample_seq(s),
                                period_nanos,
                            ),
                        },
                    }
                }
            } else if btype == 3 {
                // Simple packet block: no length fields, unsupported.
                Err(PipelineError::SimplePacketUnsupported)
            } else if btype == 1 {
                // Interface description block: rebuild the resolution from
                // its option region.
                if blen < 20 {
                    Err(PipelineError::MalformedBlock)
                } else {
                    match spec_scan_tsresol(bytes, pos + 16, pos + blen - 4, big_endian) {
                        Err(e) => Err(e),
                        Ok(descriptor) => match spec_resolution_from(descriptor) {
                            Err(e) => Err(e),
                            Ok(nres) => spec_run_ng(
                                bytes,
                                pos + blen,
                                big_endian,
                                nres,
                                b,
                                acc,
                                period_nanos,
                            ),
                        },
                    }
                }
            } else {
                // Any other block is consumed with no record emitted.
                spec_run_ng(bytes, pos + blen, big_endian, res, b, acc, period_nanos)
            }
        }
    }
}

/// The value of the whole run: dispatch on the leading magic number.
///
/// A little-endian legacy capture opens with bytes reading `0xA1B2C3D4`
/// (microsecond) or `0xA1B23C4D` (nanosecond-labelled) as a little-endian
/// word; a big-endian one with their byte reversals. A pcapng capture opens
/// with a section header block, whose type reads `0x0A0D0D0A` either way.
pub open spec fn spec_run(bytes: Seq<u8>, period_nanos: u64) -> Result<ReportModel, PipelineError> {
    if bytes.len() < 4 {
        Err(PipelineError::UnrecognizedFormat)
    } else {
        let magic = le32(bytes, 0);
        if magic == 0x0A0D0D0A {
            spec_run_ng(
                bytes,
                0,
                false,
                micro_resolution(),
                initial_bucket(),
                Seq::empty(),
                period_nanos,
            )
        } else if magic == 0xA1B2C3D4 || magic == 0xA1B23C4D || magic == 0xD4C3B2A1
            || magic == 0x4D3CB2A1 {
            let big_endian = magic == 0xD4C3B2A1 || magic == 0x4D3CB2A1;
            if bytes.len() < 24 {
                Err(PipelineError::Truncated)
            } else {
                spec_run_legacy(bytes, 24, big_endian, initial_bucket(), Seq::empty(), period_nanos)
            }
        } else {
            Err(PipelineError::UnrecognizedFormat)
        }
    }
}

/// Replaying the identical byte stream with the same reporting period
/// yields the identical report: the run's value is a function of its input
/// alone.
pub proof fn lemma_replay_deterministic(
    bytes: Seq<u8>,
    period_nanos: u64,
    r1: Result<ReportModel, PipelineError>,
    r2: Result<ReportModel, PipelineError>,
)
    requires
        r1 == spec_run(bytes, period_nanos),
        r2 == spec_run(bytes, period_nanos),
    ensures
        r1 == r2,
{
}

/// Scan an interface description block's option region for the
/// timestamp-resolution option.
#[verifier::loop_isolation(false)]
fn scan_tsresol(data: &[u8], start: usize, end: usize, big_endian: bool) -> (r: Result<
    u8,
    PipelineError,
>)
    requires
        start <= end <= data@.len(),
    ensures
        r == spec_scan_tsresol(data@, start as int, end as int, big_endian),
{
    let ghost target = spec_scan_tsresol(data@, start as int, end as int, big_endian);
    let mut o: usize = start;
    loop
        invariant
            start <= o <= end <= data@.len(),
            spec_scan_tsresol(data@, o as int, end as int, big_endian) == target,
        decreases end - o,
    {
        if end <= o {
            return Ok(6);
        }
        if end - o < 4 {
            return Err(PipelineError::MalformedBlock);
        }
        let code: u16 = read_u16(data, o, big_endian);
        let olen: u16 = read_u16(data, o + 2, big_endian);
        if code == 0 {
            return Ok(6);
        }
        if code == 9 && olen >= 1 {
            if olen as usize > end - o - 4 {
                return Err(PipelineError::MalformedBlock);
            }
            return Ok(data[o + 4]);
        }
        let padded: usize = olen as usize + ((4 - olen as usize % 4) % 4);
        assert(padded == pad4(olen as int));
        if padded > end - o - 4 {
            return Err(PipelineError::MalformedBlock);
        }
        o = o + 4 + padded;
    }
}

/// Run the record stream of a legacy capture, whose 24-byte global header
/// has already been recognized.
#[verifier::loop_isolation(false)]
#[verifier::rlimit(60)]
fn run_legacy(data: &[u8], big_endian: bool, period_nanos: u64) -> (r: Result<
    CaptureReport,
    PipelineError,
>)
    requires
        24 <= data@.len(),
    ensures
        match r {
            Ok(rep) => spec_run_legacy(
                data@,
                24,
                big_endian,
                initial_bucket(),
                Seq::empty(),
                period_nanos,
            ) == Ok::<ReportModel, PipelineError>(report_model(rep)),
            Err(e) => spec_run_legacy(
                data@,
                24,
                big_endian,
                initial_bucket(),
                Seq::empty(),
                period_nanos,
            ) == Err::<ReportModel, PipelineError>(e),
        },
{
    let ghost target = spec_run_legacy(
        data@,
        24,
        big_endian,
        initial_bucket(),
        Seq::empty(),
        period_nanos,
    );
    let mut bucket = Bucket::new();
    let mut samples: Vec<RateSample> = Vec::new();
    let mut pos: usize = 24;
    loop
        invariant
            24 <= pos <= data@.len(),
            spec_run_legacy(data@, pos as int, big_endian, bucket, samples@, period_nanos)
                == target,
        decreases data@.len() - pos,
    {
        if pos == data.len() {
            let ghost acc_end = samples@;
            match bucket.on_end(period_nanos) {
                Err(e) => {
                    return Err(e);
                },
                Ok(flushed) => {
                    if let Some(s) = flushed {
                        samples.push(s);
                    }
                    proof {
                        assert(samples@ =~= acc_end + sample_seq(flushed));
                    }
                    let rep = CaptureReport {
                        samples,
                        format: CaptureFormat::Pcap,
                        first_packet: bucket.first,
                        last_flush: bucket.prev_flush,
                    };
                    proof {
                        assert(target matches Ok(m) && m =~= report_model(rep));
                    }
                    return Ok(rep);
                },
            }
        }
        let remaining: usize = data.len() - pos;
        if remaining < 16 {
            return Err(PipelineError::Truncated);
        }
        let ts_sec: u32 = read_u32(data, pos, big_endian);
        let ts_usec: u32 = read_u32(data, pos + 4, big_endian);
        let caplen: u32 = read_u32(data, pos + 8, big_endian);
        let wirelen: u32 = read_u32(data, pos + 12, big_endian);
        if (caplen as u64) > (remaining - 16) as u64 {
            return Err(PipelineError::Truncated);
        }
        let ts = match Resolution::decode_legacy(ts_sec, ts_usec) {
            Ok(t) => t,
            Err(e) => {
                return Err(e);
            },
        };
        let ghost acc_before = samples@;
        match bucket.on_packet(wirelen, caplen, ts, period_nanos) {
            Err(e) => {
                return Err(e);
            },
            Ok(flushed) => {
                if let Some(s) = flushed {
                    samples.push(s);
                }
                proof {
                    assert(samples@ =~= acc_before + sample_seq(flushed));
                }
            },
        }
        pos = pos + 16 + caplen as usize;
    }
}

/// Run the block stream of a pcapng capture, which opens with a section
/// header block.
#[verifier::loop_isolation(false)]
#[verifier::rlimit(90)]
fn run_ng(data: &[u8], period_nanos: u64) -> (r: Result<CaptureReport, PipelineError>)
    requires
        4 <= data@.len(),
    ensures
        match r {
            Ok(rep) => spec_run_ng(
                data@,
                0,
                false,
                micro_resolution(),
                initial_bucket(),
                Seq::empty(),
                period_nanos,
            ) == Ok::<ReportModel, PipelineError>(report_model(rep)),
            Err(e) => spec_run_ng(
                data@,
                0,
                false,
                micro_resolution(),
                initial_bucket(),
                Seq::empty(),
                period_nanos,
            ) == Err::<ReportModel, PipelineError>(e),
        },
{
    let ghost target = spec_run_ng(
        data@,
        0,
        false,
        micro_resolution(),
        initial_bucket(),
        Seq::empty(),
        period_nanos,
    );
    let mut bucket = Bucket::new();
    let mut samples: Vec<RateSample> = Vec::new();
    let mut pos: usize = 0;
    let mut big_endian: bool = false;
    let mut res: Resolution = Resolution::microseconds();
    loop
        invariant
            pos <= data@.len(),
            res.wf(),
            spec_run_ng(data@, pos as int, big_endian, res, bucket, samples@, period_nanos)
                == target,
        decreases data@.len() - pos,
    {
        if pos == data.len() {
            let ghost acc_end = samples@;
            match bucket.on_end(period_nanos) {
                Err(e) => {
                    return Err(e);
                },
                Ok(flushed) => {
                    if let Some(s) = flushed {
                        samples.push(s);
                    }
                    proof {
                        assert(samples@ =~= acc_end + sample_seq(flushed));
                    }
                    let rep = CaptureReport {
                        samples,
                        format: CaptureFormat::Pcapng,
                        first_packet: bucket.first,
                        last_flush: bucket.prev_flush,
                    };
                    proof {
                        assert(target matches Ok(m) && m =~= report_model(rep));
                    }
                    return Ok(rep);
                },
            }
        }
        let remaining: usize = data.len() - pos;
        if remaining < 12 {
            return Err(PipelineError::Truncated);
        }
        let btype: u32 = read_u32(data, pos, big_endian);
        let nbig: bool;
        if btype == 0x0A0D0D0A {
            let bom: u32 = read_u32(data, pos + 8, false);
            if bom == 0x1A2B3C4D {
                nbig = false;
            } else if bom == 0x4D3C2B1A {
                nbig = true;
            } else {
                return Err(PipelineError::MalformedBlock);
            }
        } else {
            nbig = big_endian;
        }
        let blen: u32 = read_u32(data, pos + 4, nbig);
        if blen < 12 {
            return Err(PipelineError::MalformedBlock);
        }
        if (blen as u64) > remaining as u64 {
            return Err(PipelineError::Truncated);
        }
        let blen_us: usize = blen as usize;
        if read_u32(data, pos + blen_us - 4, nbig) != blen {
            return Err(PipelineError::MalformedBlock);
        }
        if btype == 0x0A0D0D0A {
            big_endian = nbig;
        } else if btype == 6 {
            if blen < 32 {
                return Err(PipelineError::MalformedBlock);
            }
            let ts_high: u32 = read_u32(data, pos + 12, big_endian);
            let ts_low: u32 = read_u32(data, pos + 16, big_endian);
            let caplen: u32 = read_u32(data, pos + 20, big_endian);
            let wirelen: u32 = read_u32(data, pos + 24, big_endian);
            let ts = match res.resolve(ts_high, ts_low) {
                Ok(t) => t,
                Err(e) => {
                    return Err(e);
                },
            };
            let ghost acc_before = samples@;
            match bucket.on_packet(wirelen, caplen, ts, period_nanos) {
                Err(e) => {
                    return Err(e);
                },
                Ok(flushed) => {
                    if let Some(s) = flushed {
                        samples.push(s);
                    }
                    proof {
                        assert(samples@ =~= acc_before + sample_seq(flushed));
                    }
                },
            }
        } else if btype == 3 {
            return Err(PipelineError::SimplePacketUnsupported);
        } else if btype == 1 {
            if blen < 20 {
                return Err(PipelineError::MalformedBlock);
            }
            let descriptor: u8 = match scan_tsresol(data, pos + 16, pos + blen_us - 4, big_endian) {
                Ok(d) => d,
                Err(e) => {
                    return Err(e);
                },
            };
            res = match Resolution::from_byte(descriptor) {
                Ok(nres) => nres,
                Err(e) => {
                    return Err(e);
                },
            };
        }
        pos = pos + blen_us;
    }
}

/// Run the whole pipeline over the bytes of a capture file.
///
/// `period_nanos` is the minimum reporting period in nanoseconds; it must
/// be positive.
pub fn run(data: &[u8], period_nanos: u64) -> (r: Result<CaptureReport, PipelineError>)
    requires
        period_nanos >= 1,
    ensures
        match r {
            Ok(rep) => spec_run(data@, period_nanos) == Ok::<ReportModel, PipelineError>(
                report_model(rep),
            ),
            Err(e) => spec_run(data@, period_nanos) == Err::<ReportModel, PipelineError>(e),
        },
{
    if data.len() < 4 {
        return Err(PipelineError::UnrecognizedFormat);
    }
    let magic: u32 = read_u32(data, 0, false);
    if magic == 0x0A0D0D0A {
        run_ng(data, period_nanos)
    } else if magic == 0xA1B2C3D4 || magic == 0xA1B23C4D || magic == 0xD4C3B2A1
        || magic == 0x4D3CB2A1 {
        let big_endian: bool = magic == 0xD4C3B2A1 || magic == 0x4D3CB2A1;
        if data.len() < 24 {
            return Err(PipelineError::Truncated);
        }
        run_legacy(data, big_endian, period_nanos)
    } else {
        Err(PipelineError::UnrecognizedFormat)
    }
}

} // verus!

