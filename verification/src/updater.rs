//! The installation driver's state: the requested version, the local
//! installation root, and the two manifests once resolved.
use vstd::prelude::*;

use crate::mc_assets::AssetsRoot;
use crate::mc_libs::LibsRoot;
use crate::paths::get_relative_local_dir_path;

verus! {

/// Manages one installation: which version to install, where, and the
/// typed manifests the download set is built from.
pub struct Updater {
    local_dir_path: String,
    version: String,
    libs_manifest: Option<LibsRoot>,
    assets_manifest: Option<AssetsRoot>,
}

impl Updater {
    pub closed spec fn local_dir_model(&self) -> Seq<char> {
        self.local_dir_path@
    }

    pub closed spec fn version_model(&self) -> Seq<char> {
        self.version@
    }

    pub closed spec fn libs_manifest_model(&self) -> Option<LibsRoot> {
        self.libs_manifest
    }

    pub closed spec fn assets_manifest_model(&self) -> Option<AssetsRoot> {
        self.assets_manifest
    }

    pub fn new(version: &str) -> (r: Self)
        ensures
            r.local_dir_model() == Seq::<char>::empty(),
            r.version_model() == version@,
            r.libs_manifest_model() is None,
            r.assets_manifest_model() is None,
    {
        Updater {
            local_dir_path: String::new(),
            version: version.to_owned(),
            libs_manifest: None,
            assets_manifest: None,
        }
    }

    pub fn local_dir_path(&self) -> (r: &str)
        ensures
            r@ == self.local_dir_model(),
    {
        self.local_dir_path.as_str()
    }

    pub fn version(&self) -> (r: &str)
        ensures
            r@ == self.version_model(),
    {
        self.version.as_str()
    }

    pub fn libs_manifest(&self) -> (r: &Option<LibsRoot>)
        ensures
            *r == self.libs_manifest_model(),
    {
        &self.libs_manifest
    }

    pub fn assets_manifest(&self) -> (r: &Option<AssetsRoot>)
        ensures
            *r == self.assets_manifest_model(),
    {
        &self.assets_manifest
    }

    pub fn set_local_dir_path(&mut self, local_dir_path: String)
        ensures
            final(self).local_dir_model() == local_dir_path@,
            final(self).version_model() == old(self).version_model(),
            final(self).libs_manifest_model() == old(self).libs_manifest_model(),
            final(self).assets_manifest_model() == old(self).assets_manifest_model(),
    {
        self.local_dir_path = local_dir_path;
    }

    pub fn set_version(&mut self, version: String)
        ensures
            final(self).version_model() == version@,
            final(self).local_dir_model() == old(self).local_dir_model(),
            final(self).libs_manifest_model() == old(self).libs_manifest_model(),
            final(self).assets_manifest_model() == old(self).assets_manifest_model(),
    {
        self.version = version;
    }

    pub fn set_libs_manifest(&mut self, libs_manifest: Option<LibsRoot>)
        ensures
            final(self).libs_manifest_model() == libs_manifest,
            final(self).local_dir_model() == old(self).local_dir_model(),
            final(self).version_model() == old(self).version_model(),
            final(self).assets_manifest_model() == old(self).assets_manifest_model(),
    {
        self.libs_manifest = libs_manifest;
    }

    pub fn set_assets_manifest(&mut self, assets_manifest: Option<AssetsRoot>)
        ensures
            final(self).assets_manifest_model() == assets_manifest,
            final(self).local_dir_model() == old(self).local_dir_model(),
            final(self).version_model() == old(self).version_model(),
            final(self).libs_manifest_model() == old(self).libs_manifest_model(),
    {
        self.assets_manifest = assets_manifest;
    }

    /// Points the installation root at `<app_root>/<local_dir_path>/`.
    /// The application root is handed in by the caller, which owns the
    /// process environment.
    pub fn set_relative_local_dir_path(&mut self, app_root: &str, local_dir_path: &str)
        ensures
            final(self).local_dir_model() == app_root@ + "/"@ + local_dir_path@ + "/"@,
            final(self).version_model() == old(self).version_model(),
            final(self).libs_manifest_model() == old(self).libs_manifest_model(),
            final(self).assets_manifest_model() == old(self).assets_manifest_model(),
    {
        let app_Root = get_relative_local_dir_path(app_root, local_dir_path);
        self.set_local_dir_path(app_Root);
    }
}

} // verus!
