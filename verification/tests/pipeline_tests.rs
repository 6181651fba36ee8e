use plotcap::errors::PipelineError;
use plotcap::pipeline::run;

const PERIOD: u64 = 1_000_000_000;

fn le16(v: &mut Vec<u8>, x: u16) {
    v.extend_from_slice(&x.to_le_bytes());
}

fn le32(v: &mut Vec<u8>, x: u32) {
    v.extend_from_slice(&x.to_le_bytes());
}

fn be32(v: &mut Vec<u8>, x: u32) {
    v.extend_from_slice(&x.to_be_bytes());
}

fn legacy_header_le() -> Vec<u8> {
    let mut v = vec![0xd4, 0xc3, 0xb2, 0xa1];
    le16(&mut v, 2);
    le16(&mut v, 4);
    le32(&mut v, 0); // thiszone
    le32(&mut v, 0); // sigfigs
    le32(&mut v, 65535); // snaplen
    le32(&mut v, 1); // network
    v
}

fn legacy_record_le(v: &mut Vec<u8>, sec: u32, usec: u32, caplen: u32, origlen: u32) {
    le32(v, sec);
    le32(v, usec);
    le32(v, caplen);
    le32(v, origlen);
    for _ in 0..caplen {
        v.push(0);
    }
}

fn shb_le(v: &mut Vec<u8>) {
    v.extend_from_slice(&[0x0a, 0x0d, 0x0d, 0x0a]);
    le32(v, 28);
    v.extend_from_slice(&[0x4d, 0x3c, 0x2b, 0x1a]);
    le16(v, 1);
    le16(v, 0);
    v.extend_from_slice(&[0xff; 8]);
    le32(v, 28);
}

fn idb_le(v: &mut Vec<u8>, tsresol: Option<u8>) {
    v.extend_from_slice(&[1, 0, 0, 0]);
    let blen: u32 = if tsresol.is_some() { 28 } else { 20 };
    le32(v, blen);
    le16(v, 1); // linktype
    le16(v, 0); // reserved
    le32(v, 65535); // snaplen
    if let Some(b) = tsresol {
        le16(v, 9); // if_tsresol option
        le16(v, 1);
        v.extend_from_slice(&[b, 0, 0, 0]);
    }
    le32(v, blen);
}

fn epb_le(v: &mut Vec<u8>, ts_high: u32, ts_low: u32, caplen: u32, origlen: u32) {
    let padded = (caplen + 3) / 4 * 4;
    let blen = 32 + padded;
    v.extend_from_slice(&[6, 0, 0, 0]);
    le32(v, blen);
    le32(v, 0); // interface id
    le32(v, ts_high);
    le32(v, ts_low);
    le32(v, caplen);
    le32(v, origlen);
    for _ in 0..padded {
        v.push(0);
    }
    le32(v, blen);
}

fn spb_le(v: &mut Vec<u8>) {
    v.extend_from_slice(&[3, 0, 0, 0]);
    le32(v, 16);
    le32(v, 60); // original length
    le32(v, 16);
}

#[test]
fn five_packets_thrice_a_second() {
    // Legacy capture, one-second period, five packets 0.3 s apart with
    // lengths 100 on the wire and 80 captured. The fifth packet crosses the
    // period and closes the bucket it was counted into; nothing is left for
    // the end-of-stream flush.
    let mut v = legacy_header_le();
    for i in 0..5u32 {
        let t_us = 300_000u64 * i as u64;
        legacy_record_le(
            &mut v,
            10 + (t_us / 1_000_000) as u32,
            (t_us % 1_000_000) as u32,
            80,
            100,
        );
    }
    let rep = run(&v, PERIOD).unwrap();
    assert_eq!(rep.format.label(), "pcap");
    assert_eq!(rep.samples.len(), 1);
    let s = &rep.samples[0];
    assert_eq!(s.packets, 5);
    assert_eq!(s.wire_bytes, 500);
    assert_eq!(s.captured_bytes, 400);
    assert_eq!(s.bucket_nanos, 1_200_000_000);
    assert_eq!(s.elapsed_micros, 1_200_000);
    let secs = s.bucket_nanos as f64 / 1e9;
    let pps = s.packets as f64 / secs;
    assert!((pps - 5.0 / 1.2).abs() < 1e-9);
    assert_eq!(rep.capture_duration_nanos(), Some(1_200_000_000));
}

#[test]
fn single_packet_yields_no_samples() {
    let mut v = legacy_header_le();
    legacy_record_le(&mut v, 5, 0, 60, 60);
    let rep = run(&v, PERIOD).unwrap();
    assert_eq!(rep.samples.len(), 0);
    assert_eq!(rep.format.label(), "pcap");
    assert_eq!(rep.capture_duration_nanos(), Some(0));
}

#[test]
fn period_crossing_final_packet_flushes_once() {
    // Three packets inside the first period, then a final packet past it:
    // the final packet closes the one and only bucket, and the
    // end-of-stream flush finds nothing left over.
    let mut v = legacy_header_le();
    legacy_record_le(&mut v, 0, 0, 10, 10);
    legacy_record_le(&mut v, 0, 200_000, 10, 10);
    legacy_record_le(&mut v, 0, 400_000, 10, 10);
    legacy_record_le(&mut v, 1, 500_000, 10, 10);
    let rep = run(&v, PERIOD).unwrap();
    assert_eq!(rep.samples.len(), 1);
    assert_eq!(rep.samples[0].packets, 4);
    assert_eq!(rep.samples[0].bucket_nanos, 1_500_000_000);
}

#[test]
fn leftover_bucket_flushes_at_end_of_stream() {
    // One mid-stream flush, then two packets left inside the next period
    // when the stream ends: the end-of-stream rule flushes them as a second
    // sample over their real, shorter duration.
    let mut v = legacy_header_le();
    legacy_record_le(&mut v, 0, 0, 10, 10);
    legacy_record_le(&mut v, 1, 200_000, 10, 10);
    legacy_record_le(&mut v, 1, 400_000, 10, 10);
    legacy_record_le(&mut v, 1, 600_000, 10, 10);
    let rep = run(&v, PERIOD).unwrap();
    assert_eq!(rep.samples.len(), 2);
    assert_eq!(rep.samples[0].packets, 2);
    assert_eq!(rep.samples[0].bucket_nanos, 1_200_000_000);
    assert_eq!(rep.samples[1].packets, 2);
    assert_eq!(rep.samples[1].bucket_nanos, 400_000_000);
    assert_eq!(rep.samples[1].elapsed_micros, 1_600_000);
    assert_eq!(rep.capture_duration_nanos(), Some(1_600_000_000));
}

#[test]
fn replaying_the_stream_is_idempotent() {
    let mut v = legacy_header_le();
    for i in 0..7u32 {
        legacy_record_le(&mut v, i / 2, (i % 2) * 500_000, 40, 60);
    }
    let first = run(&v, PERIOD).unwrap();
    let second = run(&v, PERIOD).unwrap();
    assert_eq!(first.samples, second.samples);
    assert_eq!(first.format, second.format);
    assert_eq!(first.first_packet, second.first_packet);
    assert_eq!(first.last_flush, second.last_flush);
}

#[test]
fn simple_packet_block_is_fatal() {
    let mut v = Vec::new();
    shb_le(&mut v);
    idb_le(&mut v, None);
    spb_le(&mut v);
    let err = run(&v, PERIOD).unwrap_err();
    assert_eq!(err, PipelineError::SimplePacketUnsupported);
    assert_eq!(
        err.describe(),
        "pcapng file contains simple packets, which are unsupported"
    );
}

#[test]
fn pcapng_base2_resolution_governs_packets() {
    // 1024 ticks per second: packets 2048 ticks apart are two seconds
    // apart, so the second packet closes the bucket.
    let mut v = Vec::new();
    shb_le(&mut v);
    idb_le(&mut v, Some(0x8A));
    epb_le(&mut v, 0, 1536, 60, 60);
    epb_le(&mut v, 0, 3584, 60, 60);
    let rep = run(&v, PERIOD).unwrap();
    assert_eq!(rep.format.label(), "pcapng");
    assert_eq!(rep.samples.len(), 1);
    assert_eq!(rep.samples[0].packets, 2);
    assert_eq!(rep.samples[0].bucket_nanos, 2_000_000_000);
    assert_eq!(rep.samples[0].elapsed_micros, 2_000_000);
    assert_eq!(rep.first_packet.secs, 1);
    assert_eq!(rep.first_packet.nanos, 500_000_000);
}

#[test]
fn pcapng_defaults_to_microsecond_resolution() {
    let mut v = Vec::new();
    shb_le(&mut v);
    idb_le(&mut v, None);
    epb_le(&mut v, 0, 1_000_000, 10, 10);
    epb_le(&mut v, 0, 2_500_000, 10, 10);
    let rep = run(&v, PERIOD).unwrap();
    assert_eq!(rep.samples.len(), 1);
    assert_eq!(rep.samples[0].bucket_nanos, 1_500_000_000);
}

#[test]
fn unknown_pcapng_blocks_are_skipped() {
    let mut v = Vec::new();
    shb_le(&mut v);
    idb_le(&mut v, None);
    // A name-resolution-style block the aggregator does not care about.
    v.extend_from_slice(&[4, 0, 0, 0]);
    le32(&mut v, 12);
    le32(&mut v, 12);
    epb_le(&mut v, 0, 0, 10, 10);
    epb_le(&mut v, 0, 1_100_000, 10, 10);
    let rep = run(&v, PERIOD).unwrap();
    assert_eq!(rep.samples.len(), 1);
    assert_eq!(rep.samples[0].packets, 2);
}

#[test]
fn big_endian_legacy_capture_decodes() {
    let mut v = vec![0xa1, 0xb2, 0xc3, 0xd4];
    v.extend_from_slice(&2u16.to_be_bytes());
    v.extend_from_slice(&4u16.to_be_bytes());
    be32(&mut v, 0);
    be32(&mut v, 0);
    be32(&mut v, 65535);
    be32(&mut v, 1);
    for i in 0..2u32 {
        be32(&mut v, 3 + 2 * i);
        be32(&mut v, 0);
        be32(&mut v, 0); // no captured bytes follow
        be32(&mut v, 90);
    }
    let rep = run(&v, PERIOD).unwrap();
    assert_eq!(rep.samples.len(), 1);
    assert_eq!(rep.samples[0].packets, 2);
    assert_eq!(rep.samples[0].wire_bytes, 180);
    assert_eq!(rep.samples[0].bucket_nanos, 2_000_000_000);
}

#[test]
fn big_endian_pcapng_section_decodes() {
    let mut v = Vec::new();
    v.extend_from_slice(&[0x0a, 0x0d, 0x0d, 0x0a]);
    be32(&mut v, 28);
    v.extend_from_slice(&[0x1a, 0x2b, 0x3c, 0x4d]);
    v.extend_from_slice(&1u16.to_be_bytes());
    v.extend_from_slice(&0u16.to_be_bytes());
    v.extend_from_slice(&[0xff; 8]);
    be32(&mut v, 28);
    // Interface description, no options.
    v.extend_from_slice(&[0, 0, 0, 1]);
    be32(&mut v, 20);
    v.extend_from_slice(&1u16.to_be_bytes());
    v.extend_from_slice(&0u16.to_be_bytes());
    be32(&mut v, 65535);
    be32(&mut v, 20);
    // Two enhanced packets 1.5 s apart in microsecond ticks.
    for ticks in [0u32, 1_500_000] {
        v.extend_from_slice(&[0, 0, 0, 6]);
        be32(&mut v, 32);
        be32(&mut v, 0);
        be32(&mut v, 0);
        be32(&mut v, ticks);
        be32(&mut v, 0);
        be32(&mut v, 70);
        be32(&mut v, 32);
    }
    let rep = run(&v, PERIOD).unwrap();
    assert_eq!(rep.samples.len(), 1);
    assert_eq!(rep.samples[0].packets, 2);
    assert_eq!(rep.samples[0].wire_bytes, 140);
    assert_eq!(rep.samples[0].bucket_nanos, 1_500_000_000);
}

#[test]
fn unrecognized_leading_bytes_are_rejected() {
    assert_eq!(run(b"txt", PERIOD), Err(PipelineError::UnrecognizedFormat));
    assert_eq!(
        run(b"not a capture file", PERIOD),
        Err(PipelineError::UnrecognizedFormat)
    );
}

#[test]
fn truncation_is_fatal() {
    // Header cut short.
    let mut v = legacy_header_le();
    v.truncate(20);
    assert_eq!(run(&v, PERIOD), Err(PipelineError::Truncated));
    // Record header cut short.
    let mut v = legacy_header_le();
    le32(&mut v, 1);
    le32(&mut v, 2);
    assert_eq!(run(&v, PERIOD), Err(PipelineError::Truncated));
    // Captured bytes missing.
    let mut v = legacy_header_le();
    le32(&mut v, 1);
    le32(&mut v, 0);
    le32(&mut v, 100);
    le32(&mut v, 100);
    v.extend_from_slice(&[0; 4]);
    assert_eq!(run(&v, PERIOD), Err(PipelineError::Truncated));
}

#[test]
fn malformed_pcapng_framing_is_fatal() {
    // Byte-order magic that is neither order.
    let mut v = Vec::new();
    v.extend_from_slice(&[0x0a, 0x0d, 0x0d, 0x0a]);
    le32(&mut v, 28);
    v.extend_from_slice(&[1, 2, 3, 4]);
    le16(&mut v, 1);
    le16(&mut v, 0);
    v.extend_from_slice(&[0xff; 8]);
    le32(&mut v, 28);
    assert_eq!(run(&v, PERIOD), Err(PipelineError::MalformedBlock));
    // Trailing length that contradicts the leading one.
    let mut v = Vec::new();
    shb_le(&mut v);
    let last = v.len() - 4;
    v[last] = 27;
    assert_eq!(run(&v, PERIOD), Err(PipelineError::MalformedBlock));
}

#[test]
fn unsupported_interface_resolution_is_fatal() {
    let mut v = Vec::new();
    shb_le(&mut v);
    idb_le(&mut v, Some(0x7F));
    assert_eq!(run(&v, PERIOD), Err(PipelineError::UnsupportedResolution));
}

#[test]
fn out_of_range_timestamp_is_fatal() {
    // Whole-second ticks: the full 64-bit tick count exceeds the signed
    // seconds range.
    let mut v = Vec::new();
    shb_le(&mut v);
    idb_le(&mut v, Some(0));
    epb_le(&mut v, u32::MAX, u32::MAX, 10, 10);
    assert_eq!(run(&v, PERIOD), Err(PipelineError::TimestampOutOfRange));
}

#[test]
fn counter_overflow_is_fatal() {
    let mut v = legacy_header_le();
    legacy_record_le(&mut v, 0, 0, 0, u32::MAX);
    legacy_record_le(&mut v, 0, 100, 0, u32::MAX);
    assert_eq!(run(&v, PERIOD), Err(PipelineError::CounterOverflow));
}

#[test]
fn zero_duration_leftover_bucket_is_fatal() {
    // Two packets with one timestamp left at end of stream: the flush
    // would divide by a zero duration.
    let mut v = legacy_header_le();
    legacy_record_le(&mut v, 7, 42, 10, 10);
    legacy_record_le(&mut v, 7, 42, 10, 10);
    assert_eq!(run(&v, PERIOD), Err(PipelineError::NonPositiveBucketDuration));
}

#[test]
fn resolution_change_mid_stream_applies_to_later_packets() {
    // Microsecond interface first, then a millisecond one (base 10,
    // exponent 3): the tick distance 1500 means 1.5 s only under the
    // second interface.
    let mut v = Vec::new();
    shb_le(&mut v);
    idb_le(&mut v, Some(6));
    epb_le(&mut v, 0, 0, 10, 10);
    idb_le(&mut v, Some(3));
    epb_le(&mut v, 0, 1500, 10, 10);
    let rep = run(&v, PERIOD).unwrap();
    assert_eq!(rep.samples.len(), 1);
    assert_eq!(rep.samples[0].packets, 2);
    assert_eq!(rep.samples[0].bucket_nanos, 1_500_000_000);
}
