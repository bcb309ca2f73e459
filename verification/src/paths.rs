//! The path resolver: pure functions mapping URLs and content hashes to
//! destination paths inside the fixed directory layout.
use vstd::prelude::*;

use crate::errors::DownloadError;

verus! {

/// The four well-known subdirectories of the installation tree.
pub enum Directory {
    Libraries,
    Assets,
    Indexes,
    Runtime,
}

impl Directory {
    /// The subdirectory's relative path, with a trailing separator.
    pub open spec fn spec_str(self) -> Seq<char> {
        match self {
            Directory::Libraries => "libs/"@,
            Directory::Assets => "assets/"@,
            Directory::Indexes => "assets/indexes/"@,
            Directory::Runtime => "runtime/"@,
        }
    }

    pub fn as_str(&self) -> (r: String)
        ensures
            r@ == self.spec_str(),
    {
        match self {
            Directory::Libraries => "libs/".to_owned(),
            Directory::Assets => "assets/".to_owned(),
            Directory::Indexes => "assets/indexes/".to_owned(),
            Directory::Runtime => "runtime/".to_owned(),
        }
    }
}

/// The trailing segment of `url` after its last `/`; the whole string
/// when it holds no `/`.
pub open spec fn spec_file_name(url: Seq<char>) -> Seq<char>
    decreases url.len(),
{
    if url.len() == 0 {
        url
    } else if url.last() == '/' {
        Seq::empty()
    } else {
        spec_file_name(url.drop_last()).push(url.last())
    }
}

/// When no `/` occurs at position `k` or later, and `k` sits just after a
/// `/` (or at the start), the file name is exactly the suffix from `k`.
proof fn lemma_file_name_is_suffix(s: Seq<char>, k: int)
    requires
        0 <= k <= s.len(),
        k == 0 || s[k - 1] == '/',
        forall|j: int| k <= j < s.len() ==> s[j] != '/',
    ensures
        spec_file_name(s) == s.subrange(k, s.len() as int),
    decreases s.len(),
{
    if s.len() == 0 {
        assert(spec_file_name(s) =~= s.subrange(k, s.len() as int));
    } else if k == s.len() {
        assert(s.last() == '/');
        assert(spec_file_name(s) =~= s.subrange(k, s.len() as int));
    } else {
        assert(s.last() != '/');
        lemma_file_name_is_suffix(s.drop_last(), k);
        assert(spec_file_name(s) =~= s.subrange(k, s.len() as int));
    }
}

/// The file name a URL designates: everything after its last `/`.
pub fn get_file_name_from_url(url: &str) -> (r: String)
    ensures
        r@ == spec_file_name(url@),
{
    let len = url.unicode_len();
    let mut start: usize = 0;
    let mut i: usize = 0;
    while i < len
        invariant
            len == url@.len(),
            0 <= start <= i <= len,
            start == 0 || url@[start - 1] == '/',
            forall|j: int| start <= j < i ==> url@[j] != '/',
        decreases len - i,
    {
        if url.get_char(i) == '/' {
            start = i + 1;
        }
        i += 1;
    }
    let tail = url.substring_char(start, len);
    proof {
        lemma_file_name_is_suffix(url@, start as int);
    }
    tail.to_owned()
}

/// The destination of a library file: `<root>/libs/<file name of url>`.
pub fn get_lib_path_from_url(local_dir_path: String, url: &str) -> (r: String)
    ensures
        r@ == local_dir_path@ + "libs/"@ + spec_file_name(url@),
{
    let mut r = local_dir_path;
    let dir = Directory::Libraries.as_str();
    r.append(dir.as_str());
    let name = get_file_name_from_url(url);
    r.append(name.as_str());
    r
}

/// The directory an asset's two-level store sits under, and the file path
/// the asset content-addresses to: `<root>/assets/objects/<hash[0..2]>/<hash>`.
///
/// A hash shorter than two characters cannot address a path and is
/// rejected as `MalformedHash`.
pub fn get_asset_path_from_hash(local_dir_path: String, hash: &str) -> (r: Result<
    (String, String),
    DownloadError,
>)
    ensures
        r is Ok <==> hash@.len() >= 2,
        r matches Ok(p) ==> p.0@ == local_dir_path@ + "assets/objects"@,
        r matches Ok(p) ==> p.1@ == local_dir_path@ + "assets/objects"@ + "/"@ + hash@.subrange(
            0,
            2,
        ) + "/"@ + hash@,
        r is Err ==> r == Err::<(String, String), DownloadError>(DownloadError::MalformedHash),
{
    let len = hash.unicode_len();
    if len < 2 {
        return Err(DownloadError::MalformedHash);
    }
    let mut directory_path = local_dir_path;
    let assets = Directory::Assets.as_str();
    directory_path.append(assets.as_str());
    directory_path.append("objects");
    proof {
        reveal_strlit("assets/");
        reveal_strlit("objects");
        reveal_strlit("assets/objects");
        assert("assets/"@ + "objects"@ =~= "assets/objects"@);
    }
    let mut file_path = directory_path.clone();
    file_path.append("/");
    let prefix = hash.substring_char(0, 2);
    file_path.append(prefix);
    file_path.append("/");
    file_path.append(hash);
    Ok((directory_path, file_path))
}

/// Joins an application root and a per-installation directory name into
/// the local installation root, with a trailing separator.
pub fn get_relative_local_dir_path(app_root: &str, dir_name: &str) -> (r: String)
    ensures
        r@ == app_root@ + "/"@ + dir_name@ + "/"@,
{
    let mut r = app_root.to_owned();
    r.append("/");
    r.append(dir_name);
    r.append("/");
    r
}

} // verus!
