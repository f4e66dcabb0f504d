use kyoka::bucket::bucket_of;
use kyoka::limiter::{cooldown_millis, Admission, BucketLimiter, Waiter, DEFAULT_COOLDOWN_MILLIS};
use kyoka::local::LocalQueue;

const COOLDOWN: u64 = 6000;

fn granted(answer: Admission<u32>) -> Option<u32> {
    match answer {
        Admission::Granted(handle) => Some(handle),
        Admission::Queued => None,
    }
}

fn admitted(waiter: Option<Waiter<u32>>) -> Option<(u64, u32)> {
    waiter.map(|waiter| (waiter.shard_id, waiter.handle))
}

#[test]
fn bucket_is_the_remainder() {
    assert_eq!(bucket_of(0, 1), 0);
    assert_eq!(bucket_of(7, 1), 0);
    assert_eq!(bucket_of(7, 3), 1);
    assert_eq!(bucket_of(8, 3), 2);
    assert_eq!(bucket_of(9, 3), 0);
    assert_eq!(bucket_of(u64::MAX, 16), 15);
}

#[test]
fn bucket_is_stable_across_calls() {
    for shard_id in [0u64, 1, 5, 16, 17, 1_000_003] {
        let first = bucket_of(shard_id, 16);
        for _ in 0..10 {
            assert_eq!(bucket_of(shard_id, 16), first);
        }
    }
}

#[test]
fn same_remainder_same_bucket() {
    for width in 1usize..=9 {
        for shard_id in 0u64..40 {
            assert_eq!(bucket_of(shard_id, width), bucket_of(shard_id + width as u64, width));
        }
    }
}

#[test]
fn cooldown_is_six_seconds_unless_set() {
    assert_eq!(DEFAULT_COOLDOWN_MILLIS, 6000);
    assert_eq!(cooldown_millis(None), 6000);
    assert_eq!(cooldown_millis(Some(0)), 0);
    assert_eq!(cooldown_millis(Some(10)), 10_000);
    assert_eq!(cooldown_millis(Some(u64::MAX / 1000)), u64::MAX / 1000 * 1000);
    assert_eq!(cooldown_millis(Some(u64::MAX / 1000 + 1)), u64::MAX);
    assert_eq!(cooldown_millis(Some(u64::MAX)), u64::MAX);
}

#[test]
fn limiter_refuses_width_zero_only() {
    assert!(BucketLimiter::<u32>::new(0, COOLDOWN).is_err());
    for width in 1usize..=4 {
        let limiter = BucketLimiter::<u32>::new(width, COOLDOWN).unwrap();
        assert_eq!(limiter.width(), width);
        assert_eq!(limiter.cooldown(), COOLDOWN);
        for bucket in 0..width {
            assert!(limiter.is_free(bucket, 0));
            assert_eq!(limiter.waiting(bucket), 0);
            assert_eq!(limiter.due_at(bucket), None);
        }
        assert!(!limiter.is_free(width, 0));
        assert_eq!(limiter.waiting(width), 0);
        assert_eq!(limiter.due_at(width), None);
    }
}

#[test]
fn limiter_bucket_of_follows_width() {
    let limiter = BucketLimiter::<u32>::new(4, COOLDOWN).unwrap();
    assert_eq!(limiter.bucket_of(0), 0);
    assert_eq!(limiter.bucket_of(5), 1);
    assert_eq!(limiter.bucket_of(7), 3);
    assert_eq!(limiter.bucket_of(8), 0);
}

#[test]
fn free_bucket_grants_at_once() {
    let mut limiter = BucketLimiter::new(2, COOLDOWN).unwrap();
    assert_eq!(granted(limiter.acquire(4, 40, 100)), Some(40));
    assert!(!limiter.is_free(0, 100));
    assert!(!limiter.is_free(0, 6099));
    assert!(limiter.is_free(0, 6100));
    assert!(limiter.is_free(1, 100));
    assert_eq!(limiter.waiting(0), 0);
    assert_eq!(limiter.due_at(0), Some(6100));
    assert_eq!(limiter.due_at(1), None);
}

#[test]
fn grant_expires_by_itself() {
    let mut limiter = BucketLimiter::new(1, COOLDOWN).unwrap();
    assert_eq!(granted(limiter.acquire(0, 1, 0)), Some(1));
    assert_eq!(granted(limiter.acquire(0, 2, 6000)), Some(2));
    assert_eq!(limiter.due_at(0), Some(12000));
    assert_eq!(granted(limiter.acquire(0, 3, 11_999)), None);
    assert_eq!(limiter.waiting(0), 1);
}

#[test]
fn shards_of_one_bucket_never_hold_together() {
    let mut limiter = BucketLimiter::new(2, COOLDOWN).unwrap();
    assert_eq!(granted(limiter.acquire(1, 10, 0)), Some(10));
    assert_eq!(granted(limiter.acquire(3, 30, 1)), None);
    assert_eq!(granted(limiter.acquire(5, 50, 2)), None);
    assert_eq!(granted(limiter.acquire(1, 11, 3)), None);
    assert_eq!(limiter.waiting(1), 3);
    assert_eq!(admitted(limiter.cooldown_elapsed(1, 6000)), Some((3, 30)));
    assert!(!limiter.is_free(1, 6000));
    assert_eq!(limiter.due_at(1), Some(12000));
    assert_eq!(granted(limiter.acquire(7, 70, 6001)), None);
    assert_eq!(admitted(limiter.cooldown_elapsed(1, 12000)), Some((5, 50)));
    assert_eq!(admitted(limiter.cooldown_elapsed(1, 18000)), Some((1, 11)));
    assert_eq!(admitted(limiter.cooldown_elapsed(1, 24000)), Some((7, 70)));
    assert_eq!(admitted(limiter.cooldown_elapsed(1, 30000)), None);
    assert!(limiter.is_free(1, 30000));
}

#[test]
fn early_report_changes_nothing() {
    let mut limiter = BucketLimiter::new(1, COOLDOWN).unwrap();
    assert_eq!(granted(limiter.acquire(0, 1, 1000)), Some(1));
    assert_eq!(granted(limiter.acquire(1, 2, 1000)), None);
    assert_eq!(admitted(limiter.cooldown_elapsed(0, 1000)), None);
    assert_eq!(admitted(limiter.cooldown_elapsed(0, 6999)), None);
    assert_eq!(admitted(limiter.cooldown_elapsed(0, 0)), None);
    assert_eq!(limiter.waiting(0), 1);
    assert_eq!(limiter.due_at(0), Some(7000));
    assert_eq!(admitted(limiter.cooldown_elapsed(0, 7000)), Some((1, 2)));
    assert_eq!(limiter.due_at(0), Some(13000));
}

#[test]
fn newcomer_does_not_overtake_waiters() {
    let mut limiter = BucketLimiter::new(1, COOLDOWN).unwrap();
    assert_eq!(granted(limiter.acquire(0, 1, 0)), Some(1));
    assert_eq!(granted(limiter.acquire(1, 2, 10)), None);
    assert!(!limiter.is_free(0, 7000));
    assert_eq!(granted(limiter.acquire(2, 3, 7000)), None);
    assert_eq!(admitted(limiter.cooldown_elapsed(0, 7000)), Some((1, 2)));
    assert_eq!(admitted(limiter.cooldown_elapsed(0, 13000)), Some((2, 3)));
}

#[test]
fn clock_that_runs_back_grants_nothing() {
    let mut limiter = BucketLimiter::new(1, COOLDOWN).unwrap();
    assert_eq!(granted(limiter.acquire(0, 1, 10_000)), Some(1));
    assert_eq!(granted(limiter.acquire(1, 2, 5)), None);
    assert_eq!(admitted(limiter.cooldown_elapsed(0, 9_999)), None);
    assert_eq!(admitted(limiter.cooldown_elapsed(0, 16_000)), Some((1, 2)));
}

#[test]
fn cooldown_past_the_end_of_the_clock() {
    let mut limiter = BucketLimiter::new(1, COOLDOWN).unwrap();
    assert_eq!(granted(limiter.acquire(0, 1, u64::MAX - 5)), Some(1));
    assert_eq!(limiter.due_at(0), Some(u64::MAX));
    assert_eq!(granted(limiter.acquire(1, 2, u64::MAX)), None);
    assert_eq!(admitted(limiter.cooldown_elapsed(0, u64::MAX)), None);
}

#[test]
fn zero_cooldown_grants_every_request() {
    let mut limiter = BucketLimiter::new(1, 0).unwrap();
    assert_eq!(granted(limiter.acquire(0, 1, 5)), Some(1));
    assert_eq!(granted(limiter.acquire(1, 2, 5)), Some(2));
    assert_eq!(limiter.due_at(0), Some(5));
}

#[test]
fn buckets_are_independent() {
    let mut limiter = BucketLimiter::new(3, COOLDOWN).unwrap();
    assert_eq!(granted(limiter.acquire(0, 1, 0)), Some(1));
    assert_eq!(granted(limiter.acquire(1, 2, 0)), Some(2));
    assert_eq!(granted(limiter.acquire(2, 3, 0)), Some(3));
    assert_eq!(granted(limiter.acquire(3, 4, 0)), None);
    assert_eq!(limiter.waiting(0), 1);
    assert_eq!(limiter.waiting(1), 0);
    assert_eq!(admitted(limiter.cooldown_elapsed(1, 6000)), None);
    assert!(limiter.is_free(1, 6000));
    assert!(!limiter.is_free(0, 6000));
    assert_eq!(limiter.waiting(0), 1);
    assert_eq!(admitted(limiter.cooldown_elapsed(0, 6000)), Some((3, 4)));
}

#[test]
fn report_for_missing_bucket_changes_nothing() {
    let mut limiter = BucketLimiter::<u32>::new(2, COOLDOWN).unwrap();
    assert_eq!(admitted(limiter.cooldown_elapsed(0, 0)), None);
    assert_eq!(admitted(limiter.cooldown_elapsed(2, 0)), None);
    assert_eq!(admitted(limiter.cooldown_elapsed(usize::MAX, 0)), None);
    assert!(limiter.is_free(0, 0));
    assert!(limiter.is_free(1, 0));
    assert_eq!(limiter.width(), 2);
    assert_eq!(granted(limiter.acquire(0, 9, 0)), Some(9));
}

#[test]
fn width_and_cooldown_never_change() {
    let mut limiter = BucketLimiter::new(5, COOLDOWN).unwrap();
    for shard_id in 0u64..30 {
        limiter.acquire(shard_id, shard_id as u32, shard_id);
        assert_eq!(limiter.width(), 5);
        assert_eq!(limiter.cooldown(), COOLDOWN);
    }
    for bucket in 0..7 {
        limiter.cooldown_elapsed(bucket, 10_000);
        assert_eq!(limiter.width(), 5);
        assert_eq!(limiter.cooldown(), COOLDOWN);
    }
}

#[test]
fn grants_are_a_cooldown_apart() {
    let mut limiter = BucketLimiter::new(1, COOLDOWN).unwrap();
    let mut issued: Vec<u64> = Vec::new();
    let mut shard_id = 0;
    for now in (0..60_000u64).step_by(250) {
        if now % 1000 == 0 {
            shard_id += 1;
            if granted(limiter.acquire(shard_id, 0, now)).is_some() {
                issued.push(now);
            }
        }
        if limiter.cooldown_elapsed(0, now).is_some() {
            issued.push(now);
        }
    }
    assert_eq!(issued.len(), 10);
    for pair in issued.windows(2) {
        assert!(pair[1] >= pair[0] + COOLDOWN);
    }
}

#[test]
fn local_queue_serves_in_arrival_order() {
    let mut queue = LocalQueue::new(COOLDOWN);
    assert_eq!(queue.cooldown(), COOLDOWN);
    assert!(queue.is_free(0));
    assert_eq!(queue.due_at(), None);
    assert_eq!(granted(queue.request(0, 100, 0)), Some(100));
    assert_eq!(granted(queue.request(1, 101, 0)), None);
    assert_eq!(granted(queue.request(2, 102, 0)), None);
    assert!(!queue.is_free(0));
    assert_eq!(queue.waiting(), 2);
    assert_eq!(queue.due_at(), Some(6000));
    assert_eq!(admitted(queue.cooldown_elapsed(5999)), None);
    assert_eq!(admitted(queue.cooldown_elapsed(6000)), Some((1, 101)));
    assert!(!queue.is_free(6000));
    assert_eq!(queue.waiting(), 1);
    assert_eq!(queue.due_at(), Some(12000));
    assert_eq!(admitted(queue.cooldown_elapsed(6001)), None);
    assert_eq!(admitted(queue.cooldown_elapsed(12000)), Some((2, 102)));
    assert_eq!(queue.waiting(), 0);
    assert!(!queue.is_free(17_999));
    assert_eq!(admitted(queue.cooldown_elapsed(18000)), None);
    assert!(queue.is_free(18000));
}

#[test]
fn local_queue_has_one_bucket_for_all_shards() {
    let mut queue = LocalQueue::new(COOLDOWN);
    assert_eq!(granted(queue.request(u64::MAX, 1, 0)), Some(1));
    assert_eq!(granted(queue.request(0, 2, 0)), None);
    assert_eq!(granted(queue.request(12345, 3, 0)), None);
    assert_eq!(admitted(queue.cooldown_elapsed(6000)), Some((0, 2)));
    assert_eq!(admitted(queue.cooldown_elapsed(12000)), Some((12345, 3)));
}

#[test]
fn local_queue_report_when_free_is_harmless() {
    let mut queue = LocalQueue::<u32>::new(COOLDOWN);
    assert_eq!(admitted(queue.cooldown_elapsed(0)), None);
    assert!(queue.is_free(0));
    assert_eq!(granted(queue.request(3, 7, 0)), Some(7));
}
