//! Typed packages of the runtime vendor's metadata API, and the choice
//! of which package archive to install.
use vstd::prelude::*;

use crate::hashing::str_eq;

verus! {

/// One runtime package the vendor offers.
pub struct Version {
    pub package_uuid: String,
    pub name: String,
    pub java_version: Vec<i64>,
    pub openjdk_build_number: i64,
    pub latest: bool,
    pub download_url: String,
    pub product: String,
    pub distro_version: Vec<i64>,
    pub availability_type: String,
}

/// Whether a package name ends in `.zip`.
pub open spec fn is_zip_name(name: Seq<char>) -> bool {
    name.len() >= 4 && name.subrange(name.len() - 4, name.len() as int) == ".zip"@
}

/// Whether a package's archive name ends in `.zip`.
pub fn has_zip_name(name: &str) -> (r: bool)
    ensures
        r == is_zip_name(name@),
{
    let len = name.unicode_len();
    if len < 4 {
        false
    } else {
        let tail = name.substring_char(len - 4, len);
        str_eq(tail, ".zip")
    }
}

/// Picks the runtime archive to install: the download URL of the first
/// package whose name ends in `.zip`, or `None` when no package offers
/// a zip archive.
pub fn select_zip_download(packages: &Vec<Version>) -> (r: Option<&str>)
    ensures
        match r {
            Some(u) => exists|i: int|
                0 <= i < packages@.len() && is_zip_name(
                    (#[trigger] packages@[i]).name@,
                ) && u@ == packages@[i].download_url@ && (forall|j: int|
                    0 <= j < i ==> !is_zip_name((#[trigger] packages@[j]).name@)),
            None => forall|i: int|
                0 <= i < packages@.len() ==> !is_zip_name((#[trigger] packages@[i]).name@),
        },
{
    let n = packages.len();
    let mut i: usize = 0;
    while i < n
        invariant
            n == packages@.len(),
            0 <= i <= n,
            forall|j: int| 0 <= j < i ==> !is_zip_name((#[trigger] packages@[j]).name@),
        decreases n - i,
    {
        let package = &packages[i];
        if has_zip_name(package.name.as_str()) {
            return Some(package.download_url.as_str());
        }
        i += 1;
    }
    None
}

} // verus!
