//! The statistics service surface: the read-length histogram snapshot that
//! the streaming operation delivers.
//!
//! As with the acquisition service, the streaming channel itself lives
//! outside this crate; the logic here builds the one response record the
//! stream carries.

use vstd::prelude::*;

verus! {

/// The half-open range `[start, end)` one histogram bucket covers.
#[derive(Clone, Copy, PartialEq, Eq, Structural, Debug)]
pub struct BucketRange {
    pub start: u64,
    pub end: u64,
}

/// Counts accumulated in the histogram buckets.
pub struct ReadLengthHistogramData {
    pub bucket_values: Vec<u64>,
}

/// One snapshot of the read-length histogram stream.
pub struct StreamReadLengthHistogramResponse {
    pub read_length_type: i32,
    pub bucket_ranges: Vec<BucketRange>,
    pub source_data_end: u64,
    pub bucket_value_type: i32,
    pub histogram_data: Vec<ReadLengthHistogramData>,
}

/// The statistics service.
pub struct Statistics {}

impl Statistics {
    /// A fresh statistics service. The channel size of the delivery stream
    /// is plumbing handled outside this crate, so it is accepted and unused
    /// here.
    pub fn new(_channel_size: usize) -> Statistics {
        Statistics {}
    }

    /// The single item the histogram stream delivers: three fixed bucket
    /// ranges, the fixed source-data end marker, and no accumulated data.
    pub fn stream_read_length_histogram(&self) -> (r: StreamReadLengthHistogramResponse)
        ensures
            r.read_length_type == 1,
            r.bucket_ranges@.len() == 3,
            r.bucket_ranges@[0] == (BucketRange { start: 0, end: 128 }),
            r.bucket_ranges@[1] == (BucketRange { start: 128, end: 256 }),
            r.bucket_ranges@[2] == (BucketRange { start: 256, end: 354 }),
            r.source_data_end == 100,
            r.bucket_value_type == 2,
            r.histogram_data@.len() == 0,
    {
        let mut bucket_ranges: Vec<BucketRange> = Vec::new();
        bucket_ranges.push(BucketRange { start: 0, end: 128 });
        bucket_ranges.push(BucketRange { start: 128, end: 256 });
        bucket_ranges.push(BucketRange { start: 256, end: 354 });
        let histogram_data: Vec<ReadLengthHistogramData> = Vec::new();
        StreamReadLengthHistogramResponse {
            read_length_type: 1,
            bucket_ranges,
            source_data_end: 100,
            bucket_value_type: 2,
            histogram_data,
        }
    }
}

} // verus!
