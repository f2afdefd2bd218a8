use std::collections::HashMap;

use m3u8_downloader::assemble::{assemble_segments, segment_file_names};
use m3u8_downloader::fetch::{ExistingFile, FetchAction, SegmentFetch};
use m3u8_downloader::scheduler::Scheduler;
use m3u8_downloader::validator::ts_head_is_valid;

const BASE: &str = "https://cdn.example/show/index.m3u8";

/// A transport-stream-looking payload of two packets, tagged with `tag`.
fn segment_bytes(tag: u8) -> Vec<u8> {
    let mut v = vec![tag; 376];
    v[0] = 0x47;
    v[188] = 0x47;
    v
}

/// A simulated download: a network that serves `served`, a download directory
/// `disk`, and fetches completed in the order `completion`. Returns the
/// scheduler, the URLs retrieved, and the most fetches seen running at once.
fn simulate(
    uris: &[&str],
    limit: usize,
    served: &HashMap<String, Vec<u8>>,
    disk: &mut HashMap<String, Vec<u8>>,
    completion: &[usize],
) -> (Scheduler, Vec<String>, usize) {
    let mut sched = Scheduler::new(uris.len(), limit);
    let mut retrieved = Vec::new();
    let mut running: Vec<usize> = Vec::new();
    let mut max_running = 0;
    let mut order = completion.iter();
    loop {
        while let Some(p) = sched.admit_next() {
            running.push(p);
        }
        max_running = max_running.max(running.len());
        if sched.is_finished() {
            break;
        }
        // Complete the next running segment in the simulated completion order.
        let p = loop {
            let c = *order.next().expect("completion order covers every segment");
            if running.contains(&c) {
                break c;
            }
        };
        running.retain(|&x| x != p);
        let mut m = SegmentFetch::new(p, uris[p].to_string(), BASE.to_string(), None, 2);
        let mut action = m.start();
        let outcome = loop {
            action = match action {
                FetchAction::Inspect(name) => match disk.get(&name) {
                    None => m.on_inspected(ExistingFile::Absent),
                    Some(b) if ts_head_is_valid(b) => m.on_inspected(ExistingFile::Valid),
                    Some(_) => m.on_inspected(ExistingFile::Invalid),
                },
                FetchAction::Discard(name) => {
                    disk.remove(&name);
                    m.on_discarded()
                }
                FetchAction::Retrieve(url) => {
                    retrieved.push(url.clone());
                    let body = served[&url].clone();
                    sched.record_bytes(body.len() as u64);
                    m.on_retrieved(Ok(body))
                }
                FetchAction::Persist(name, data) => {
                    disk.insert(name, data);
                    m.on_written(Ok(()))
                }
                FetchAction::Wait(_) => m.on_waited(),
                FetchAction::Finish(r) => break r,
            }
        };
        sched.complete(p, outcome);
    }
    (sched, retrieved, max_running)
}

fn network(uris: &[&str], tags: &[u8]) -> HashMap<String, Vec<u8>> {
    uris.iter()
        .zip(tags)
        .map(|(u, t)| (format!("https://cdn.example/show/{}", u), segment_bytes(*t)))
        .collect()
}

fn read_back(uris: &[&str], disk: &HashMap<String, Vec<u8>>) -> Vec<Option<Vec<u8>>> {
    let names = segment_file_names(&uris.iter().map(|u| u.to_string()).collect());
    names.iter().map(|n| disk.get(n).cloned()).collect()
}

#[test]
fn assembly_follows_manifest_order_not_completion_order() {
    let uris = ["a.ts", "b.ts", "c.ts"];
    let served = network(&uris, &[1, 2, 3]);
    let mut disk = HashMap::new();
    let (sched, _, _) = simulate(&uris, 3, &served, &mut disk, &[2, 0, 1]);
    assert!(sched.into_result().is_ok());
    let out = assemble_segments(&read_back(&uris, &disk)).unwrap();
    let mut expected = segment_bytes(1);
    expected.extend(segment_bytes(2));
    expected.extend(segment_bytes(3));
    assert_eq!(out, expected);
}

#[test]
fn end_to_end_three_unencrypted_segments() {
    let uris = ["s0.ts", "s1.ts", "s2.ts"];
    let served = network(&uris, &[10, 20, 30]);
    let mut disk = HashMap::new();
    let (sched, retrieved, max_running) = simulate(&uris, 2, &served, &mut disk, &[0, 1, 2]);
    assert_eq!(max_running, 2);
    assert_eq!(retrieved.len(), 3);
    assert_eq!(sched.stats.completed_segments, 3);
    assert_eq!(sched.stats.downloaded_bytes, 3 * 376);
    assert!(sched.into_result().is_ok());
    let out = assemble_segments(&read_back(&uris, &disk)).unwrap();
    assert_eq!(out, [segment_bytes(10), segment_bytes(20), segment_bytes(30)].concat());
}

#[test]
fn rerun_skips_valid_and_refetches_invalid() {
    let uris = ["s0.ts", "s1.ts", "s2.ts"];
    let served = network(&uris, &[10, 20, 30]);
    let mut disk = HashMap::new();
    disk.insert("s0.ts".to_string(), segment_bytes(10));
    disk.insert("s1.ts".to_string(), vec![0u8; 10]);
    let (sched, retrieved, _) = simulate(&uris, 2, &served, &mut disk, &[0, 1, 2]);
    assert_eq!(
        retrieved,
        vec!["https://cdn.example/show/s1.ts".to_string(), "https://cdn.example/show/s2.ts".to_string()]
    );
    assert_eq!(sched.stats.downloaded_bytes, 2 * 376);
    assert_eq!(sched.stats.completed_segments, 2);
    assert!(sched.into_result().is_ok());
    assert_eq!(disk["s1.ts"], segment_bytes(20));
}
