use m3u8_downloader::error::DownloadError;
use m3u8_downloader::fetch::FetchOutcome;
use m3u8_downloader::scheduler::{DownloadStats, Scheduler, SegmentState};

#[test]
fn admission_never_exceeds_limit() {
    for (total, limit) in [(5usize, 2usize), (8, 3), (3, 3), (10, 1)] {
        let mut s = Scheduler::new(total, limit);
        let mut running: Vec<usize> = Vec::new();
        let mut max_running = 0usize;
        let mut admitted = Vec::new();
        loop {
            while let Some(p) = s.admit_next() {
                running.push(p);
                admitted.push(p);
                max_running = max_running.max(running.len());
                assert!(running.len() <= limit);
                assert_eq!(s.active, running.len());
            }
            if s.is_finished() {
                break;
            }
            // Complete the most recently admitted one first.
            let p = running.pop().unwrap();
            s.complete(p, Ok(FetchOutcome::Fetched));
        }
        assert_eq!(max_running, limit);
        assert_eq!(admitted, (0..total).collect::<Vec<_>>());
        assert_eq!(s.stats.completed_segments, total);
    }
}

#[test]
fn skipped_segments_do_not_count_as_completed() {
    let mut s = Scheduler::new(2, 2);
    let a = s.admit_next().unwrap();
    let b = s.admit_next().unwrap();
    assert_eq!(s.admit_next(), None);
    s.complete(a, Ok(FetchOutcome::Skipped));
    s.complete(b, Ok(FetchOutcome::Fetched));
    assert_eq!(s.stats.completed_segments, 1);
    assert_eq!(s.state_of(a), SegmentState::Persisted);
    assert!(s.is_finished());
    assert!(s.into_result().is_ok());
}

#[test]
fn lowest_failed_position_is_reported() {
    let mut s = Scheduler::new(4, 4);
    for _ in 0..4 {
        s.admit_next().unwrap();
    }
    s.complete(3, Err(DownloadError::Timeout));
    s.complete(0, Ok(FetchOutcome::Fetched));
    assert!(!s.is_finished());
    s.complete(1, Err(DownloadError::HttpError("404".to_string())));
    s.complete(2, Ok(FetchOutcome::Fetched));
    assert!(s.is_finished());
    assert_eq!(s.state_of(3), SegmentState::Failed);
    match s.into_result() {
        Err(DownloadError::HttpError(m)) => assert_eq!(m, "404"),
        other => panic!("unexpected {:?}", other),
    }
}

#[test]
fn empty_download_is_finished_at_once() {
    let mut s = Scheduler::new(0, 2);
    assert_eq!(s.admit_next(), None);
    assert!(s.is_finished());
    assert!(s.into_result().is_ok());
}

#[test]
fn bytes_accumulate_and_saturate() {
    let mut s = Scheduler::new(1, 1);
    s.record_bytes(10);
    s.record_bytes(32);
    assert_eq!(s.stats.downloaded_bytes, 42);
    s.record_bytes(u64::MAX);
    assert_eq!(s.stats.downloaded_bytes, u64::MAX);
}

#[test]
fn progress_percentage_and_speed() {
    let mut st = DownloadStats::new(3);
    assert_eq!(st.get_progress_percentage(), 0);
    st.completed_segments = 1;
    assert_eq!(st.get_progress_percentage(), 33);
    st.completed_segments = 3;
    assert_eq!(st.get_progress_percentage(), 100);
    assert_eq!(DownloadStats::new(0).get_progress_percentage(), 0);
    st.downloaded_bytes = 5000;
    assert_eq!(st.get_speed(2000), 2500);
    assert_eq!(st.get_speed(0), 0);
    assert_eq!(st.get_speed(3), 1_666_666);
}
