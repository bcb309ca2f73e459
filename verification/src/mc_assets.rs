//! Typed manifest objects for the per-file asset index.
use vstd::prelude::*;

verus! {

/// One asset object: its content hash and its size in bytes.
#[derive(Clone)]
pub struct Object {
    pub hash: String,
    pub size: i32,
}

impl Object {
    pub fn hash(&self) -> (r: &str)
        ensures
            r@ == self.hash@,
    {
        self.hash.as_str()
    }

    pub fn size(&self) -> (r: i32)
        ensures
            r == self.size,
    {
        self.size
    }
}

/// The asset manifest: named asset objects, in manifest order.
#[derive(Clone)]
pub struct AssetsRoot {
    pub objects: Vec<(String, Object)>,
}

impl AssetsRoot {
    pub fn objects(&self) -> (r: &Vec<(String, Object)>)
        ensures
            r == &self.objects,
    {
        &self.objects
    }
}

} // verus!
