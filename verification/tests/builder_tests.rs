use mc_updater::downloads::DownloadManager;
use mc_updater::errors::DownloadError;
use mc_updater::mc_assets::Object;
use mc_updater::mc_libs::{Artifact, AssetIndex, Client, Library, LibraryDownloads, LibsRoot};

fn library(name: &str, path: &str, url: &str, sha1: &str) -> Library {
    Library {
        downloads: LibraryDownloads {
            artifact: Artifact {
                path: path.to_string(),
                sha1: sha1.to_string(),
                size: 100,
                url: url.to_string(),
            },
        },
        name: name.to_string(),
    }
}

fn sample_root() -> LibsRoot {
    LibsRoot {
        asset_index: AssetIndex {
            id: "24".to_string(),
            sha1: "1111111111111111111111111111111111111111".to_string(),
            size: 10,
            total_size: 1000,
            url: "https://example.net/indexes/24.json".to_string(),
        },
        java_version: 17,
        libraries: vec![
            library("a:a:1", "a/a/1/a-1.jar", "https://example.net/a-1.jar", "aa00"),
            library("b:b:2", "b/b/2/b-2.jar", "https://example.net/b-2.jar", "bb00"),
            library("c:c:3", "c/c/3/c-3.jar", "https://example.net/c-3.jar", "cc00"),
        ],
        client: Client {
            sha1: "dd00".to_string(),
            size: 5000,
            url: "https://example.net/client.jar".to_string(),
        },
    }
}

#[test]
fn populate_libraries_skips_present_destinations() {
    let root = sample_root();
    let mut manager = DownloadManager::new("/game/".to_string());
    manager.populate_libraries(&root, &vec![true, false, true], true);
    let pending = manager.pending();
    assert_eq!(pending.len(), 1);
    assert_eq!(pending[0].url, "https://example.net/b-2.jar");
    assert_eq!(pending[0].path, "/game/libs/b-2.jar");
    assert_eq!(pending[0].dl_tries, 0);
    assert_eq!(pending[0].hash.as_deref(), Some("bb00"));
}

#[test]
fn populate_libraries_appends_missing_asset_index() {
    let root = sample_root();
    let mut manager = DownloadManager::new("/game/".to_string());
    manager.populate_libraries(&root, &vec![true, true, true], false);
    let pending = manager.pending();
    assert_eq!(pending.len(), 1);
    assert_eq!(pending[0].url, "https://example.net/indexes/24.json");
    assert_eq!(pending[0].path, "/game/assets/indexes/24.json");
    assert_eq!(
        pending[0].hash.as_deref(),
        Some("1111111111111111111111111111111111111111")
    );
}

#[test]
fn populate_against_unchanged_directory_is_idempotent() {
    let root = sample_root();
    let mut manager = DownloadManager::new("/game/".to_string());
    let objects = vec![
        ("one.png".to_string(), Object { hash: "abcd".to_string(), size: 1 }),
        ("two.png".to_string(), Object { hash: "ef01".to_string(), size: 2 }),
    ];
    manager.populate_libraries(&root, &vec![true, true, true], true);
    manager
        .populate_assets(&objects, &vec![true, true])
        .unwrap();
    manager.populate_game_artifact(&root, true);
    assert_eq!(manager.pending().len(), 0);
}

#[test]
fn populate_assets_builds_content_addressed_entries() {
    let mut manager = DownloadManager::new("/game/".to_string());
    let objects = vec![
        ("icons/icon_16x16.png".to_string(), Object { hash: "feedbeef".to_string(), size: 1 }),
        ("sounds/pop.ogg".to_string(), Object { hash: "0badcafe".to_string(), size: 2 }),
    ];
    manager.populate_assets(&objects, &vec![false, true]).unwrap();
    let pending = manager.pending();
    assert_eq!(pending.len(), 1);
    assert_eq!(
        pending[0].url,
        "https://resources.download.minecraft.net/fe/feedbeef"
    );
    assert_eq!(pending[0].path, "/game/assets/objects/fe/feedbeef");
    assert_eq!(pending[0].hash.as_deref(), Some("feedbeef"));
}

#[test]
fn equal_hashes_resolve_to_equal_paths() {
    let mut manager = DownloadManager::new("/game/".to_string());
    let objects = vec![
        ("textures/grass.png".to_string(), Object { hash: "feedbeef".to_string(), size: 1 }),
        ("textures/lawn.png".to_string(), Object { hash: "feedbeef".to_string(), size: 1 }),
    ];
    manager.populate_assets(&objects, &vec![false, false]).unwrap();
    let pending = manager.pending();
    assert_eq!(pending.len(), 2);
    assert_eq!(pending[0].path, pending[1].path);
    assert_eq!(pending[0].url, pending[1].url);
}

#[test]
fn populate_assets_rejects_malformed_hash() {
    let mut manager = DownloadManager::new("/game/".to_string());
    let objects = vec![
        ("good.png".to_string(), Object { hash: "abcd".to_string(), size: 1 }),
        ("bad.png".to_string(), Object { hash: "x".to_string(), size: 1 }),
    ];
    let r = manager.populate_assets(&objects, &vec![false, false]);
    assert_eq!(r, Err(DownloadError::MalformedHash));
    assert_eq!(manager.pending().len(), 0);
}

#[test]
fn populate_game_artifact_targets_the_root() {
    let root = sample_root();
    let mut manager = DownloadManager::new("/game/".to_string());
    manager.populate_game_artifact(&root, false);
    let pending = manager.pending();
    assert_eq!(pending.len(), 1);
    assert_eq!(pending[0].url, "https://example.net/client.jar");
    assert_eq!(pending[0].path, "/game/client.jar");
    assert_eq!(pending[0].hash.as_deref(), Some("dd00"));
}

#[test]
fn one_missing_library_is_fetched_and_nothing_is_reported() {
    // Three libraries, two already on disk: exactly one entry is built;
    // its transfer succeeds, so no round reports any failure.
    let root = sample_root();
    let mut manager = DownloadManager::new("/game/".to_string());
    manager.populate_libraries(&root, &vec![true, false, true], true);
    assert_eq!(manager.pending().len(), 1);

    let batch = manager.take_pending();
    assert_eq!(batch.len(), 1);
    assert_eq!(batch[0].url, "https://example.net/b-2.jar");
    // The transfer of the single entry succeeds: nothing is recorded.
    manager.finish_round();
    assert!(!manager.has_pending());
    assert_eq!(manager.fails().len(), 0);
    assert_eq!(manager.unrecoverable().len(), 0);

    // With the third file now present as well, a fresh population run
    // finds nothing left to do.
    let mut second = DownloadManager::new("/game/".to_string());
    second.populate_libraries(&root, &vec![true, true, true], true);
    assert_eq!(second.pending().len(), 0);
}

#[test]
fn successful_round_leaves_no_failures() {
    let root = sample_root();
    let mut manager = DownloadManager::new("/game/".to_string());
    manager.populate_libraries(&root, &vec![true, false, true], true);
    let batch = manager.take_pending();
    assert_eq!(batch.len(), 1);
    manager.finish_round();
    assert_eq!(manager.pending().len(), 0);
    assert_eq!(manager.fails().len(), 0);
    assert_eq!(manager.unrecoverable().len(), 0);
}
