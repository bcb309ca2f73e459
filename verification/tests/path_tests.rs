use mc_updater::errors::DownloadError;
use mc_updater::paths::{
    get_asset_path_from_hash, get_file_name_from_url, get_lib_path_from_url,
    get_relative_local_dir_path, Directory,
};

#[test]
fn directory_strings() {
    assert_eq!(Directory::Libraries.as_str(), "libs/");
    assert_eq!(Directory::Assets.as_str(), "assets/");
    assert_eq!(Directory::Indexes.as_str(), "assets/indexes/");
    assert_eq!(Directory::Runtime.as_str(), "runtime/");
}

#[test]
fn file_name_from_url() {
    assert_eq!(
        get_file_name_from_url("https://libraries.minecraft.net/com/mojang/netty/1.8.8/netty-1.8.8.jar"),
        "netty-1.8.8.jar"
    );
    assert_eq!(get_file_name_from_url("no-separator.jar"), "no-separator.jar");
    assert_eq!(get_file_name_from_url("trailing/slash/"), "");
    assert_eq!(get_file_name_from_url(""), "");
}

#[test]
fn lib_path_from_url() {
    assert_eq!(
        get_lib_path_from_url("/data/game/".to_string(), "com/mojang/netty/1.8.8/netty-1.8.8.jar"),
        "/data/game/libs/netty-1.8.8.jar"
    );
}

#[test]
fn asset_path_from_hash() {
    let (dir, file) =
        get_asset_path_from_hash("/data/game/".to_string(), "a9993e364706816aba3e25717850c26c9cd0d89d")
            .unwrap();
    assert_eq!(dir, "/data/game/assets/objects");
    assert_eq!(
        file,
        "/data/game/assets/objects/a9/a9993e364706816aba3e25717850c26c9cd0d89d"
    );
}

#[test]
fn asset_path_two_character_hash_is_accepted() {
    let (dir, file) = get_asset_path_from_hash("r/".to_string(), "ab").unwrap();
    assert_eq!(dir, "r/assets/objects");
    assert_eq!(file, "r/assets/objects/ab/ab");
}

#[test]
fn asset_path_rejects_short_hash() {
    assert_eq!(
        get_asset_path_from_hash("/data/game/".to_string(), "a"),
        Err(DownloadError::MalformedHash)
    );
    assert_eq!(
        get_asset_path_from_hash("/data/game/".to_string(), ""),
        Err(DownloadError::MalformedHash)
    );
}

#[test]
fn relative_local_dir_path() {
    assert_eq!(get_relative_local_dir_path("/home/user", ".game"), "/home/user/.game/");
}
