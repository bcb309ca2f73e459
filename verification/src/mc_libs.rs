//! Typed manifest objects for one game version: its libraries, asset
//! index descriptor, runtime major version and main game artifact.
use vstd::prelude::*;

use crate::hashing::str_eq;

verus! {

/// A downloadable artifact: its repository path, hash, size and URL.
#[derive(Clone)]
pub struct Artifact {
    pub path: String,
    pub sha1: String,
    pub size: i64,
    pub url: String,
}

/// The download section of a library descriptor.
#[derive(Clone)]
pub struct LibraryDownloads {
    pub artifact: Artifact,
}

/// One library the game links against.
#[derive(Clone)]
pub struct Library {
    pub downloads: LibraryDownloads,
    pub name: String,
}

/// The asset index descriptor embedded in the version manifest.
#[derive(Clone)]
pub struct AssetIndex {
    pub id: String,
    pub sha1: String,
    pub size: i64,
    pub total_size: i64,
    pub url: String,
}

/// The main game artifact.
#[derive(Clone)]
pub struct Client {
    pub sha1: String,
    pub size: i64,
    pub url: String,
}

/// The version manifest's typed form.
#[derive(Clone)]
pub struct LibsRoot {
    pub asset_index: AssetIndex,
    pub java_version: u8,
    pub libraries: Vec<Library>,
    pub client: Client,
}

/// One platform rule attached to a manifest element: an action and the
/// operating system it speaks of, either possibly absent.
pub struct Rule {
    pub action: Option<String>,
    pub os: Option<String>,
}

/// Whether a rule explicitly allows the current operating system.
pub open spec fn rule_allows(rule: Rule, current_os: Seq<char>) -> bool {
    &&& rule.action matches Some(a) && a@ == "allow"@
    &&& rule.os matches Some(o) && o@ == current_os
}

/// Whether a manifest element applies on `current_os`: an element with no
/// rule list always applies; one with rules applies only when some rule
/// allows the current operating system.
pub fn check_rules(rules: &Option<Vec<Rule>>, current_os: &str) -> (r: bool)
    ensures
        r == (rules is None || exists|i: int|
            0 <= i < rules->0@.len() && rule_allows(#[trigger] rules->0@[i], current_os@)),
{
    match rules {
        None => true,
        Some(rs) => {
            let n = rs.len();
            let mut i: usize = 0;
            while i < n
                invariant
                    rules is Some && rules->0@ == rs@,
                    n == rs@.len(),
                    0 <= i <= n,
                    forall|j: int| 0 <= j < i ==> !rule_allows(#[trigger] rs@[j], current_os@),
                decreases n - i,
            {
                let rule = &rs[i];
                let action_allows = match &rule.action {
                    Some(a) => str_eq(a.as_str(), "allow"),
                    None => false,
                };
                let os_matches = match &rule.os {
                    Some(o) => str_eq(o.as_str(), current_os),
                    None => false,
                };
                if action_allows && os_matches {
                    proof {
                        assert(rule_allows(rules->0@[i as int], current_os@));
                    }
                    return true;
                }
                i += 1;
            }
            false
        },
    }
}

} // verus!
