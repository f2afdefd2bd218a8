use m3u8_downloader::error::DownloadError;
use m3u8_downloader::task::{
    artifact_file_name, batch_result, count_outcomes, download_dir_of, intermediate_file_name, is_already_downloaded, output_dir_of,
    task_args, DownloadTask, TaskOutcome, TASK_RETRY_LIMIT,
};

fn task(name: &str, dir: &str) -> DownloadTask {
    DownloadTask { name: name.to_string(), url: "https://e.x/p.m3u8".to_string(), output_dir: dir.to_string() }
}

#[test]
fn task_directories() {
    assert_eq!(output_dir_of(&task("show", "")), "./output");
    assert_eq!(output_dir_of(&task("show", "/media")), "/media/show");
    assert_eq!(download_dir_of(&task("show", "/media")), "./downloads/show");
    assert_eq!(artifact_file_name("show"), "show.mp4");
    assert_eq!(intermediate_file_name("show"), "show_temp.ts");
}

#[test]
fn task_settings() {
    let a = task_args(&task("ep1", "out"), 8, 3);
    assert_eq!(a.url, "https://e.x/p.m3u8");
    assert_eq!(a.output_name, "ep1");
    assert_eq!(a.concurrent, 8);
    assert_eq!(a.retry, TASK_RETRY_LIMIT);
    assert_eq!(a.retry, 4);
    assert_eq!(a.download_dir, "./downloads/ep1");
    assert_eq!(a.output_dir, "out/ep1");
    assert_eq!(a.index, 3);
}

#[test]
fn already_downloaded_needs_non_empty_artifact() {
    let t = task("ep1", "");
    assert!(!is_already_downloaded(&t, &vec![]));
    assert!(!is_already_downloaded(&t, &vec![("ep1.mp4".to_string(), 0)]));
    assert!(!is_already_downloaded(&t, &vec![("ep2.mp4".to_string(), 10), ("ep1.ts".to_string(), 10)]));
    assert!(is_already_downloaded(&t, &vec![("other".to_string(), 1), ("ep1.mp4".to_string(), 1)]));
}

#[test]
fn batch_fails_only_when_every_task_failed() {
    let failed = |n: &str| (n.to_string(), TaskOutcome::Failed("boom".to_string()));
    assert!(batch_result(&vec![failed("a"), ("b".to_string(), TaskOutcome::Succeeded)]).is_ok());
    assert!(batch_result(&vec![failed("a"), ("b".to_string(), TaskOutcome::Skipped)]).is_ok());
    assert!(matches!(batch_result(&vec![failed("a"), failed("b")]), Err(DownloadError::TaskError(_))));
    assert!(matches!(batch_result(&vec![]), Err(DownloadError::TaskError(_))));
}

#[test]
fn batch_counts_by_kind() {
    let outcomes = vec![
        ("a".to_string(), TaskOutcome::Succeeded),
        ("b".to_string(), TaskOutcome::Failed("x".to_string())),
        ("c".to_string(), TaskOutcome::Skipped),
        ("d".to_string(), TaskOutcome::Succeeded),
    ];
    let c = count_outcomes(&outcomes);
    assert_eq!((c.succeeded, c.failed, c.skipped), (2, 1, 1));
    let e = count_outcomes(&vec![]);
    assert_eq!((e.succeeded, e.failed, e.skipped), (0, 0, 0));
}
