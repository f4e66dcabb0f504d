//! Assignment of shards to concurrency buckets.
//!
//! A grant belongs to a bucket, not to a shard: shards whose ids leave the
//! same remainder modulo the concurrency width share one slot.

use vstd::prelude::*;

verus! {

/// The bucket that `shard_id` falls into when `width` buckets exist.
pub open spec fn spec_bucket_of(shard_id: u64, width: nat) -> int {
    shard_id as int % width as int
}

/// Computes the bucket of a shard: its id modulo the number of buckets. The
/// result depends on nothing but the two arguments.
pub fn bucket_of(shard_id: u64, width: usize) -> (bucket: usize)
    requires
        width >= 1,
    ensures
        bucket == spec_bucket_of(shard_id, width as nat),
        bucket < width,
{
    (shard_id % (width as u64)) as usize
}

/// Every shard has a bucket below the width, and shards with the same
/// remainder modulo the width have the same bucket.
pub proof fn lemma_bucket_by_remainder(first: u64, second: u64, width: nat)
    requires
        width >= 1,
        first as int % width as int == second as int % width as int,
    ensures
        spec_bucket_of(first, width) == spec_bucket_of(second, width),
        0 <= spec_bucket_of(first, width) < width,
{
}

} // verus!
