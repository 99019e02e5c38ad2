use simple_web_server::{JobQueue, QueueClosed, Received};

#[test]
fn new_queue_is_open_and_empty() {
    let mut q: JobQueue<u32> = JobQueue::new();
    assert!(matches!(q.receive(), Received::Pending));
}

#[test]
fn jobs_come_out_in_submission_order() {
    let mut q: JobQueue<u32> = JobQueue::new();
    assert!(q.submit(1).is_ok());
    assert!(q.submit(2).is_ok());
    assert!(q.submit(3).is_ok());
    assert!(matches!(q.receive(), Received::Job(1)));
    assert!(matches!(q.receive(), Received::Job(2)));
    assert!(matches!(q.receive(), Received::Job(3)));
    assert!(matches!(q.receive(), Received::Pending));
}

#[test]
fn each_job_is_delivered_exactly_once() {
    let mut q: JobQueue<u32> = JobQueue::new();
    for i in 0..100u32 {
        assert!(q.submit(i).is_ok());
    }
    q.close();
    let mut seen = Vec::new();
    loop {
        match q.receive() {
            Received::Job(j) => seen.push(j),
            Received::NoMoreWork => break,
            Received::Pending => panic!("closed queue answered Pending"),
        }
    }
    let expected: Vec<u32> = (0..100).collect();
    assert_eq!(seen, expected);
}

#[test]
fn submit_after_close_hands_the_job_back() {
    let mut q: JobQueue<u32> = JobQueue::new();
    assert!(q.submit(5).is_ok());
    q.close();
    match q.submit(7) {
        Err(QueueClosed(j)) => assert_eq!(j, 7),
        Ok(()) => panic!("closed queue accepted a job"),
    }
}

#[test]
fn close_preserves_pending_jobs() {
    let mut q: JobQueue<u32> = JobQueue::new();
    assert!(q.submit(10).is_ok());
    assert!(q.submit(11).is_ok());
    q.close();
    assert!(matches!(q.receive(), Received::Job(10)));
    assert!(matches!(q.receive(), Received::Job(11)));
    assert!(matches!(q.receive(), Received::NoMoreWork));
}

#[test]
fn close_is_idempotent() {
    let mut q: JobQueue<u32> = JobQueue::new();
    assert!(q.submit(1).is_ok());
    q.close();
    q.close();
    assert!(matches!(q.receive(), Received::Job(1)));
    assert!(matches!(q.receive(), Received::NoMoreWork));
    q.close();
    assert!(matches!(q.receive(), Received::NoMoreWork));
}
