//! Typed objects of the remote version index, and the lookup that picks
//! the manifest for a requested version id.
use vstd::prelude::*;

use crate::hashing::str_eq;

verus! {

/// One entry of the version index.
#[derive(Clone)]
pub struct Version {
    pub id: String,
    pub version_type: String,
    pub url: String,
    pub time: String,
    pub releaseTime: String,
    pub sha1: String,
    pub complianceLevel: u8,
}

impl PartialEq for Version {
    fn eq(&self, other: &Self) -> (r: bool) {
        self.id == other.id && self.version_type == other.version_type && self.url == other.url && self.time
            == other.time && self.releaseTime == other.releaseTime && self.sha1 == other.sha1
            && self.complianceLevel == other.complianceLevel
    }
}

impl vstd::std_specs::cmp::PartialEqSpecImpl for Version {
    open spec fn obeys_eq_spec() -> bool {
        true
    }

    open spec fn eq_spec(&self, other: &Version) -> bool {
        &&& self.id@ == other.id@
        &&& self.version_type@ == other.version_type@
        &&& self.url@ == other.url@
        &&& self.time@ == other.time@
        &&& self.releaseTime@ == other.releaseTime@
        &&& self.sha1@ == other.sha1@
        &&& self.complianceLevel == other.complianceLevel
    }
}

impl Version {
    pub fn id(&self) -> (r: &str)
        ensures
            r@ == self.id@,
    {
        self.id.as_str()
    }

    pub fn version_type(&self) -> (r: &str)
        ensures
            r@ == self.version_type@,
    {
        self.version_type.as_str()
    }

    pub fn url(&self) -> (r: &str)
        ensures
            r@ == self.url@,
    {
        self.url.as_str()
    }

    pub fn time(&self) -> (r: &str)
        ensures
            r@ == self.time@,
    {
        self.time.as_str()
    }

    pub fn releaseTime(&self) -> (r: &str)
        ensures
            r@ == self.releaseTime@,
    {
        self.releaseTime.as_str()
    }

    pub fn sha1(&self) -> (r: &str)
        ensures
            r@ == self.sha1@,
    {
        self.sha1.as_str()
    }

    pub fn complianceLevel(&self) -> (r: u8)
        ensures
            r == self.complianceLevel,
    {
        self.complianceLevel
    }
}

/// The version index: the latest release and snapshot ids, and every
/// known version.
pub struct Versions {
    pub latest: Latest,
    pub versions: Vec<Version>,
}

impl Versions {
    pub fn latest(&self) -> (r: &Latest)
        ensures
            r == &self.latest,
    {
        &self.latest
    }

    pub fn versions(&self) -> (r: &Vec<Version>)
        ensures
            r == &self.versions,
    {
        &self.versions
    }
}

/// The ids of the newest release and the newest snapshot.
pub struct Latest {
    pub release: String,
    pub snapshot: String,
}

impl Latest {
    pub fn release(&self) -> (r: &str)
        ensures
            r@ == self.release@,
    {
        self.release.as_str()
    }

    pub fn snapshot(&self) -> (r: &str)
        ensures
            r@ == self.snapshot@,
    {
        self.snapshot.as_str()
    }
}

/// Looks a requested version id up in the index: the first entry whose id
/// matches, or `None` when no entry matches.
pub fn select_version<'a>(versions: &'a Versions, wanted: &str) -> (r: Option<&'a Version>)
    ensures
        match r {
            Some(v) => exists|i: int|
                0 <= i < versions.versions@.len() && *v == #[trigger] versions.versions@[i]
                    && versions.versions@[i].id@ == wanted@ && (forall|j: int|
                    0 <= j < i ==> versions.versions@[j].id@ != wanted@),
            None => forall|i: int|
                0 <= i < versions.versions@.len() ==> (#[trigger] versions.versions@[i]).id@
                    != wanted@,
        },
{
    let n = versions.versions.len();
    let mut i: usize = 0;
    while i < n
        invariant
            n == versions.versions@.len(),
            0 <= i <= n,
            forall|j: int| 0 <= j < i ==> (#[trigger] versions.versions@[j]).id@ != wanted@,
        decreases n - i,
    {
        let v = &versions.versions[i];
        if str_eq(v.id.as_str(), wanted) {
            return Some(v);
        }
        i += 1;
    }
    None
}

} // verus!
