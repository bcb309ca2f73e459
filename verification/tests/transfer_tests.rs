use mc_updater::errors::DownloadError;
use mc_updater::transfer::{FetchAction, FetchPhase, TransferUnit};

const ABC_SHA1: &str = "a9993e364706816aba3e25717850c26c9cd0d89d";

#[test]
fn existing_destination_short_circuits() {
    let mut unit = TransferUnit::new(
        "https://example.net/a.bin".to_string(),
        "/game/a.bin".to_string(),
        Some(ABC_SHA1.to_string()),
    );
    assert!(matches!(unit.start(), FetchAction::CheckExistence));
    let action = unit.on_existence(true);
    assert!(matches!(action, FetchAction::Finished(Ok(()))));
    assert_eq!(unit.phase(), FetchPhase::Done);
}

#[test]
fn missing_body_is_a_network_error() {
    let mut unit = TransferUnit::new(
        "https://example.net/a.bin".to_string(),
        "/game/a.bin".to_string(),
        None,
    );
    unit.start();
    assert!(matches!(unit.on_existence(false), FetchAction::RequestBody));
    let action = unit.on_body(None);
    assert!(matches!(
        action,
        FetchAction::Finished(Err(DownloadError::NetworkError))
    ));
}

#[test]
fn failed_directory_creation_is_an_io_error() {
    let mut unit = TransferUnit::new(
        "https://example.net/a.bin".to_string(),
        "/game/a.bin".to_string(),
        None,
    );
    unit.start();
    unit.on_existence(false);
    assert!(matches!(unit.on_body(Some(b"abc".to_vec())), FetchAction::CreateDirs));
    let action = unit.on_dirs_created(false);
    assert!(matches!(action, FetchAction::Finished(Err(DownloadError::IoError))));
}

#[test]
fn failed_write_is_an_io_error() {
    let mut unit = TransferUnit::new(
        "https://example.net/a.bin".to_string(),
        "/game/a.bin".to_string(),
        None,
    );
    unit.start();
    unit.on_existence(false);
    unit.on_body(Some(b"abc".to_vec()));
    assert!(matches!(unit.on_dirs_created(true), FetchAction::WriteBody));
    let action = unit.on_written(false, None);
    assert!(matches!(action, FetchAction::Finished(Err(DownloadError::IoError))));
}

#[test]
fn verified_write_succeeds() {
    let mut unit = TransferUnit::new(
        "https://example.net/a.bin".to_string(),
        "/game/a.bin".to_string(),
        Some(ABC_SHA1.to_string()),
    );
    unit.start();
    unit.on_existence(false);
    unit.on_body(Some(b"abc".to_vec()));
    unit.on_dirs_created(true);
    assert_eq!(unit.body().as_deref(), Some(b"abc".as_slice()));
    let action = unit.on_written(true, Some(b"abc".to_vec()));
    assert!(matches!(action, FetchAction::Finished(Ok(()))));
}

#[test]
fn corrupted_write_is_a_hash_mismatch() {
    let mut unit = TransferUnit::new(
        "https://example.net/a.bin".to_string(),
        "/game/a.bin".to_string(),
        Some(ABC_SHA1.to_string()),
    );
    unit.start();
    unit.on_existence(false);
    unit.on_body(Some(b"abc".to_vec()));
    unit.on_dirs_created(true);
    let action = unit.on_written(true, Some(b"abd".to_vec()));
    assert!(matches!(
        action,
        FetchAction::Finished(Err(DownloadError::HashMismatch))
    ));
}

#[test]
fn unreadable_destination_after_write_is_a_hash_mismatch() {
    let mut unit = TransferUnit::new(
        "https://example.net/a.bin".to_string(),
        "/game/a.bin".to_string(),
        Some(ABC_SHA1.to_string()),
    );
    unit.start();
    unit.on_existence(false);
    unit.on_body(Some(b"abc".to_vec()));
    unit.on_dirs_created(true);
    let action = unit.on_written(true, None);
    assert!(matches!(
        action,
        FetchAction::Finished(Err(DownloadError::HashMismatch))
    ));
}

#[test]
fn unverified_write_succeeds_without_a_hash() {
    let mut unit = TransferUnit::new(
        "https://example.net/a.bin".to_string(),
        "/game/a.bin".to_string(),
        None,
    );
    unit.start();
    unit.on_existence(false);
    unit.on_body(Some(b"anything".to_vec()));
    unit.on_dirs_created(true);
    let action = unit.on_written(true, None);
    assert!(matches!(action, FetchAction::Finished(Ok(()))));
    assert_eq!(unit.url(), "https://example.net/a.bin");
    assert_eq!(unit.path(), "/game/a.bin");
}
