use kyoka::limiter::Admission;
use kyoka::queue::{plan, Queue, QueuePlan};
use kyoka::remote::{RemoteQueueClient, Routed};

fn answer(routed: Routed<u32>) -> Option<Option<u32>> {
    match routed {
        Routed::Remote { .. } => None,
        Routed::Local(Admission::Granted(handle)) => Some(Some(handle)),
        Routed::Local(Admission::Queued) => Some(None),
    }
}

fn granted(answer: Admission<u32>) -> Option<u32> {
    match answer {
        Admission::Granted(handle) => Some(handle),
        Admission::Queued => None,
    }
}

#[test]
fn queue_is_planned_from_settings() {
    assert!(matches!(plan(Some("http://q/"), None), QueuePlan::Remote { url: "http://q/" }));
    assert!(matches!(plan(Some("http://q/"), Some(16)), QueuePlan::Remote { url: "http://q/" }));
    assert!(matches!(plan(None, Some(16)), QueuePlan::Bucketed { width: 16 }));
    assert!(matches!(plan(None, Some(0)), QueuePlan::Bucketed { width: 0 }));
    assert!(matches!(plan(None, None), QueuePlan::Local));
}

#[test]
fn local_variant_answers_in_order() {
    let mut queue = Queue::<u32>::local(6000);
    assert_eq!(queue.due_at(0), None);
    assert_eq!(answer(queue.request(4, 40, 0)), Some(Some(40)));
    assert_eq!(answer(queue.request(5, 50, 0)), Some(None));
    assert_eq!(queue.bucket_of(4), 0);
    assert_eq!(queue.bucket_of(5), 0);
    assert_eq!(queue.due_at(0), Some(6000));
    assert_eq!(queue.due_at(1), None);
    assert!(queue.cooldown_elapsed(1, 6000).is_none());
    assert!(queue.cooldown_elapsed(0, 5999).is_none());
    let waiter = queue.cooldown_elapsed(0, 6000).unwrap();
    assert_eq!((waiter.shard_id, waiter.handle), (5, 50));
    assert!(queue.cooldown_elapsed(0, 12000).is_none());
    assert_eq!(granted(queue.remote_failed(6, 60, 12000)), Some(60));
}

#[test]
fn bucketed_variant_answers_by_bucket() {
    assert!(Queue::<u32>::bucketed(0, 6000).is_err());
    let mut queue = Queue::<u32>::bucketed(2, 6000).ok().unwrap();
    assert_eq!(queue.bucket_of(3), 1);
    assert_eq!(queue.bucket_of(4), 0);
    assert_eq!(answer(queue.request(3, 30, 0)), Some(Some(30)));
    assert_eq!(answer(queue.request(4, 40, 1)), Some(Some(40)));
    assert_eq!(answer(queue.request(5, 50, 2)), Some(None));
    assert_eq!(queue.due_at(0), Some(6001));
    assert_eq!(queue.due_at(1), Some(6000));
    assert!(queue.cooldown_elapsed(0, 6001).is_none());
    let waiter = queue.cooldown_elapsed(1, 6000).unwrap();
    assert_eq!((waiter.shard_id, waiter.handle), (5, 50));
    assert!(queue.cooldown_elapsed(2, 6000).is_none());
}

#[test]
fn remote_variant_asks_until_it_fails() {
    let client = RemoteQueueClient::<u32>::new("http://q/".to_string(), 6000);
    let mut queue = Queue::remote(client);
    assert_eq!(queue.bucket_of(9), 0);
    assert_eq!(queue.due_at(0), None);
    match queue.request(9, 90, 0) {
        Routed::Remote { url, handle } => {
            assert_eq!(url, "http://q/queue?shard=9");
            assert_eq!(granted(queue.remote_failed(9, handle, 50)), Some(90));
        },
        Routed::Local(_) => panic!("a client that has not failed asks the service"),
    }
    assert_eq!(queue.due_at(0), Some(6050));
    assert_eq!(answer(queue.request(1, 10, 60)), Some(None));
    assert!(queue.cooldown_elapsed(3, 6050).is_none());
    assert!(queue.cooldown_elapsed(0, 6049).is_none());
    let waiter = queue.cooldown_elapsed(0, 6050).unwrap();
    assert_eq!((waiter.shard_id, waiter.handle), (1, 10));
}
