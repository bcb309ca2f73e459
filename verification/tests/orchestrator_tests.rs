use mc_updater::downloads::{DownloadElement, DownloadManager, MAX_TRIES};
use mc_updater::mc_libs::{AssetIndex, Client, LibsRoot};

fn root_with_client(url: &str, sha1: &str) -> LibsRoot {
    LibsRoot {
        asset_index: AssetIndex {
            id: "24".to_string(),
            sha1: "1111".to_string(),
            size: 10,
            total_size: 1000,
            url: "https://example.net/indexes/24.json".to_string(),
        },
        java_version: 17,
        libraries: vec![],
        client: Client { sha1: sha1.to_string(), size: 5000, url: url.to_string() },
    }
}

/// One round in which every dispatched entry fails.
fn all_fail_round(manager: &mut DownloadManager) -> usize {
    let batch = manager.take_pending();
    let dispatched = batch.len();
    for element in batch {
        manager.record_failure(element);
    }
    manager.finish_round();
    dispatched
}

#[test]
fn always_failing_entry_is_dropped_after_four_attempts() {
    let mut manager = DownloadManager::new("/game/".to_string());
    manager.populate_game_artifact(&root_with_client("https://example.net/client.jar", "dd00"), false);

    let mut attempts = 0;
    for _ in 0..MAX_TRIES as usize + 1 {
        assert_eq!(manager.unrecoverable().len(), 0);
        attempts += all_fail_round(&mut manager);
    }
    assert_eq!(attempts, 4);
    assert_eq!(manager.pending().len(), 0);
    assert_eq!(manager.fails().len(), 0);
    let report = manager.unrecoverable();
    assert_eq!(report.len(), 1);
    assert_eq!(report[0].url, "https://example.net/client.jar");
    assert_eq!(report[0].path, "/game/client.jar");
    assert_eq!(report[0].dl_tries, 4);

    // Later rounds dispatch nothing and the report does not change.
    assert_eq!(all_fail_round(&mut manager), 0);
    assert_eq!(manager.unrecoverable().len(), 1);
}

#[test]
fn entry_recovering_on_a_retry_never_reaches_the_report() {
    let mut manager = DownloadManager::new("/game/".to_string());
    manager.populate_game_artifact(&root_with_client("https://example.net/client.jar", "dd00"), false);

    // First attempt fails...
    all_fail_round(&mut manager);
    assert_eq!(manager.pending().len(), 1);
    assert_eq!(manager.pending()[0].dl_tries, 1);

    // ...the retry succeeds: nothing recorded, nothing dropped.
    let batch = manager.take_pending();
    assert_eq!(batch.len(), 1);
    manager.finish_round();
    assert_eq!(manager.pending().len(), 0);
    assert_eq!(manager.unrecoverable().len(), 0);
}

fn element(tag: usize) -> DownloadElement {
    DownloadElement {
        url: format!("https://example.net/{}.bin", tag),
        path: format!("/game/{}.bin", tag),
        dl_tries: 0,
        hash: None,
    }
}

#[test]
fn concurrent_failures_are_neither_lost_nor_duplicated() {
    // Units dispatched as 0..7 report completion in an unrelated order.
    let completion_order: Vec<usize> = vec![3, 0, 6, 1, 5, 2, 4];

    let mut manager = DownloadManager::new("/game/".to_string());
    for tag in &completion_order {
        manager.record_failure(element(*tag));
    }
    let fails = manager.fails();
    assert_eq!(fails.len(), 7);
    for tag in 0..7 {
        let expected_url = format!("https://example.net/{}.bin", tag);
        let copies = fails.iter().filter(|e| e.url == expected_url).count();
        assert_eq!(copies, 1);
    }
    for e in fails.iter() {
        assert_eq!(e.dl_tries, 1);
    }
}

#[test]
fn take_pending_clears_previous_failure_accounting() {
    let mut manager = DownloadManager::new("/game/".to_string());
    manager.record_failure(element(1));
    assert_eq!(manager.fails().len(), 1);
    let batch = manager.take_pending();
    assert_eq!(batch.len(), 0);
    assert_eq!(manager.fails().len(), 0);
}

#[test]
fn finish_round_partitions_by_the_ceiling() {
    let mut manager = DownloadManager::new("/game/".to_string());
    let mut retryable = element(1);
    retryable.dl_tries = MAX_TRIES - 1;
    let mut exhausted = element(2);
    exhausted.dl_tries = MAX_TRIES;
    manager.record_failure(retryable);
    manager.record_failure(exhausted);
    manager.finish_round();
    assert_eq!(manager.pending().len(), 1);
    assert_eq!(manager.pending()[0].url, "https://example.net/1.bin");
    assert_eq!(manager.pending()[0].dl_tries, MAX_TRIES);
    assert_eq!(manager.unrecoverable().len(), 1);
    assert_eq!(manager.unrecoverable()[0].url, "https://example.net/2.bin");
    assert_eq!(manager.unrecoverable()[0].dl_tries, MAX_TRIES + 1);
}

#[test]
fn manager_accessors() {
    let manager = DownloadManager::new("/game/".to_string());
    assert_eq!(manager.local_dir_path(), "/game/");
    assert!(!manager.has_pending());
    let defaulted = DownloadManager::default();
    assert_eq!(defaulted.local_dir_path(), "");
    assert_eq!(defaulted.pending().len(), 0);
}
