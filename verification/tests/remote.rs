use kyoka::limiter::Admission;
use kyoka::remote::{request_url, QueueMode, RemoteQueueClient, Routed, SELF_TEST_SHARD};
use kyoka::text::to_decimal;

fn remote_url(routed: Routed<u32>) -> Option<(String, u32)> {
    match routed {
        Routed::Remote { url, handle } => Some((url, handle)),
        Routed::Local(_) => None,
    }
}

fn local_grant(routed: Routed<u32>) -> Option<Option<u32>> {
    match routed {
        Routed::Remote { .. } => None,
        Routed::Local(Admission::Granted(handle)) => Some(Some(handle)),
        Routed::Local(Admission::Queued) => Some(None),
    }
}

fn granted(answer: Admission<u32>) -> Option<u32> {
    match answer {
        Admission::Granted(handle) => Some(handle),
        Admission::Queued => None,
    }
}

#[test]
fn decimal_numerals() {
    assert_eq!(to_decimal(0), "0");
    assert_eq!(to_decimal(7), "7");
    assert_eq!(to_decimal(10), "10");
    assert_eq!(to_decimal(105), "105");
    assert_eq!(to_decimal(9_876_543_210), "9876543210");
    assert_eq!(to_decimal(u64::MAX), "18446744073709551615");
}

#[test]
fn request_url_appends_path_and_shard() {
    assert_eq!(request_url("http://queue.local:3421/", 5), "http://queue.local:3421/queue?shard=5");
    assert_eq!(request_url("http://q/", 0), "http://q/queue?shard=0");
    assert_eq!(request_url("", 42), "queue?shard=42");
    assert_eq!(request_url("http://q/api/", u64::MAX), "http://q/api/queue?shard=18446744073709551615");
}

#[test]
fn self_test_asks_for_shard_zero() {
    assert_eq!(SELF_TEST_SHARD, 0);
    let client = RemoteQueueClient::<u32>::new("http://q/".to_string(), 6000);
    assert_eq!(client.self_test_url(), "http://q/queue?shard=0");
}

#[test]
fn failed_self_test_fails_construction() {
    let client = RemoteQueueClient::<u32>::new("http://q/".to_string(), 6000);
    assert!(client.confirm(false).is_err());
}

#[test]
fn passed_self_test_hands_out_remote_client() {
    let client = RemoteQueueClient::<u32>::new("http://q/".to_string(), 6000);
    let mut client = client.confirm(true).ok().unwrap();
    assert_eq!(client.mode(), QueueMode::Remote);
    assert_eq!(
        remote_url(client.request(3, 30, 0)),
        Some(("http://q/queue?shard=3".to_string(), 30))
    );
    assert_eq!(client.mode(), QueueMode::Remote);
}

#[test]
fn remote_mode_keeps_asking_service() {
    let mut client = RemoteQueueClient::<u32>::new("http://q/".to_string(), 6000);
    for shard_id in 0u64..5 {
        let (url, handle) = remote_url(client.request(shard_id, shard_id as u32, shard_id)).unwrap();
        assert_eq!(url, format!("http://q/queue?shard={shard_id}"));
        assert_eq!(handle, shard_id as u32);
        assert_eq!(client.mode(), QueueMode::Remote);
    }
    assert!(client.cooldown_elapsed(100_000).is_none());
    assert_eq!(client.due_at(), None);
    assert_eq!(client.mode(), QueueMode::Remote);
}

#[test]
fn first_failure_degrades_for_good() {
    let mut client = RemoteQueueClient::<u32>::new("http://q/".to_string(), 6000);
    let (_, handle) = remote_url(client.request(0, 1, 0)).unwrap();
    assert_eq!(granted(client.remote_failed(0, handle, 10)), Some(1));
    assert_eq!(client.mode(), QueueMode::DegradedLocal);
    assert_eq!(client.due_at(), Some(6010));
    for shard_id in [1u64, 2, 0, 99, u64::MAX] {
        assert_eq!(local_grant(client.request(shard_id, 7, 20)), Some(None));
        assert_eq!(client.mode(), QueueMode::DegradedLocal);
    }
    for round in 1..=5u64 {
        assert!(client.cooldown_elapsed(10 + 6000 * round - 1).is_none());
        let waiter = client.cooldown_elapsed(10 + 6000 * round).unwrap();
        assert_eq!(waiter.handle, 7);
        assert_eq!(client.mode(), QueueMode::DegradedLocal);
    }
    assert!(client.cooldown_elapsed(100_000).is_none());
    assert_eq!(client.mode(), QueueMode::DegradedLocal);
    assert_eq!(local_grant(client.request(4, 8, 100_000)), Some(Some(8)));
}

#[test]
fn fallback_queue_is_shared_by_all_shards() {
    let mut client = RemoteQueueClient::<u32>::new("http://q/".to_string(), 6000);
    assert_eq!(granted(client.remote_failed(0, 10, 0)), Some(10));
    assert_eq!(local_grant(client.request(1, 11, 1)), Some(None));
    assert_eq!(local_grant(client.request(2, 12, 2)), Some(None));
    let first = client.cooldown_elapsed(6000).unwrap();
    assert_eq!((first.shard_id, first.handle), (1, 11));
    let second = client.cooldown_elapsed(12000).unwrap();
    assert_eq!((second.shard_id, second.handle), (2, 12));
}

#[test]
fn second_failure_report_keeps_the_fallback_queue() {
    let mut client = RemoteQueueClient::<u32>::new("http://q/".to_string(), 6000);
    assert_eq!(granted(client.remote_failed(0, 10, 0)), Some(10));
    assert_eq!(granted(client.remote_failed(1, 11, 1)), None);
    assert_eq!(client.mode(), QueueMode::DegradedLocal);
    let waiter = client.cooldown_elapsed(6000).unwrap();
    assert_eq!((waiter.shard_id, waiter.handle), (1, 11));
}
