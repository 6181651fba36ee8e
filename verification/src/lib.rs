//! Verified core of a capture-file traffic-rate plotter.
//!
//! The library ingests the bytes of a packet-capture file (legacy pcap or
//! pcapng), decodes the per-record timestamps (fixed microsecond resolution
//! for legacy captures, per-interface base-2/base-10 tick resolution for
//! pcapng), and aggregates the packet stream into regularly bucketed rate
//! samples. Every function here carries a contract tying its result to a
//! mathematical model of the byte stream; the surrounding tool does the file
//! I/O and turns the integer samples into floating-point rates for plotting.

pub mod aggregator;
pub mod bytes;
pub mod errors;
pub mod pipeline;
pub mod resolver;
pub mod timestamp;
