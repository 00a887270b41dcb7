use httpie::pool::{JobQueue, Next};

#[test]
fn every_job_runs_once_with_more_jobs_than_workers() {
    let workers = 3;
    let jobs = 10u32;
    let mut q: JobQueue<u32> = JobQueue::new();
    for j in 0..jobs {
        assert_eq!(q.submit(j).ok(), Some(j as u64));
    }
    q.close();
    let mut ran: Vec<Vec<(u64, u32)>> = vec![Vec::new(); workers];
    let mut stopped = vec![false; workers];
    while stopped.iter().any(|s| !*s) {
        for w in 0..workers {
            if stopped[w] {
                continue;
            }
            match q.take() {
                Next::Run(t, j) => ran[w].push((t, j)),
                Next::Wait => panic!("a closed queue never asks to wait"),
                Next::Stop => stopped[w] = true,
            }
        }
    }
    let mut all: Vec<(u64, u32)> = ran.into_iter().flatten().collect();
    all.sort();
    let expected: Vec<(u64, u32)> = (0..jobs).map(|j| (j as u64, j)).collect();
    assert_eq!(all, expected);
    assert_eq!(q.len(), 0);
}

#[test]
fn open_empty_queue_says_wait() {
    let mut q: JobQueue<&str> = JobQueue::new();
    assert!(matches!(q.take(), Next::Wait));
    assert_eq!(q.submit("a").ok(), Some(0));
    assert_eq!(q.len(), 1);
    match q.take() {
        Next::Run(t, j) => {
            assert_eq!(t, 0);
            assert_eq!(j, "a");
        }
        _ => panic!("a queued job is handed out"),
    }
    assert!(matches!(q.take(), Next::Wait));
}

#[test]
fn closed_queue_refuses_jobs_and_drains() {
    let mut q: JobQueue<u8> = JobQueue::new();
    assert_eq!(q.submit(1).ok(), Some(0));
    assert_eq!(q.submit(2).ok(), Some(1));
    q.close();
    assert_eq!(q.submit(3).err(), Some(3));
    assert!(matches!(q.take(), Next::Run(0, 1)));
    assert!(matches!(q.take(), Next::Run(1, 2)));
    assert!(matches!(q.take(), Next::Stop));
    assert!(matches!(q.take(), Next::Stop));
}

#[test]
fn interleaved_submits_and_takes_keep_order() {
    let mut q: JobQueue<char> = JobQueue::new();
    q.submit('a').ok();
    q.submit('b').ok();
    assert!(matches!(q.take(), Next::Run(0, 'a')));
    q.submit('c').ok();
    assert!(matches!(q.take(), Next::Run(1, 'b')));
    assert!(matches!(q.take(), Next::Run(2, 'c')));
    assert!(matches!(q.take(), Next::Wait));
}
