//! The download set and its orchestrator: entries pending transfer, the
//! failure accounting of each round, and the bounded retry policy.
use vstd::prelude::*;

use crate::errors::DownloadError;
use crate::mc_assets::Object;
use crate::mc_libs::{AssetIndex, Client, Library, LibsRoot};
use crate::paths::{get_asset_path_from_hash, get_file_name_from_url, get_lib_path_from_url, spec_file_name, Directory};

verus! {

/// How many retries an entry is granted after its initial attempt. An
/// entry whose recorded attempt count exceeds this ceiling is dropped
/// permanently.
pub const MAX_TRIES: u8 = 3;

/// One unit of download work: a source URL, a destination path, the
/// number of attempts recorded so far, and an optional expected hash.
/// An element is never mutated: the retry loop replaces a failed element
/// by a new one with the count incremented.
pub struct DownloadElement {
    pub url: String,
    pub path: String,
    pub dl_tries: u8,
    pub hash: Option<String>,
}

/// The mathematical image of a `DownloadElement`.
pub ghost struct ElemModel {
    pub url: Seq<char>,
    pub path: Seq<char>,
    pub dl_tries: nat,
    pub hash: Option<Seq<char>>,
}

impl View for DownloadElement {
    type V = ElemModel;

    open spec fn view(&self) -> ElemModel {
        ElemModel {
            url: self.url@,
            path: self.path@,
            dl_tries: self.dl_tries as nat,
            hash: match self.hash {
                Some(h) => Some(h@),
                None => None,
            },
        }
    }
}

impl Clone for DownloadElement {
    fn clone(&self) -> (r: Self)
        ensures
            r@ == self@,
    {
        DownloadElement {
            url: self.url.clone(),
            path: self.path.clone(),
            dl_tries: self.dl_tries,
            hash: match &self.hash {
                Some(h) => Some(h.clone()),
                None => None,
            },
        }
    }
}

/// The models of a sequence of elements.
pub open spec fn models_of(s: Seq<DownloadElement>) -> Seq<ElemModel> {
    s.map_values(|e: DownloadElement| e@)
}

/// The same element with its attempt count set to `tries`.
pub open spec fn with_tries(e: ElemModel, tries: nat) -> ElemModel {
    ElemModel { url: e.url, path: e.path, dl_tries: tries, hash: e.hash }
}

/// The element a failing transfer appends: the attempt just made is
/// recorded on top of the counts already carried.
pub open spec fn bumped(e: ElemModel) -> ElemModel {
    with_tries(e, e.dl_tries + 1)
}

/// Whether a failed element is still within the retry ceiling.
pub open spec fn retryable(e: ElemModel) -> bool {
    e.dl_tries <= MAX_TRIES as nat
}

/// The failed elements a round retries, in order.
pub open spec fn retry_part(s: Seq<ElemModel>) -> Seq<ElemModel> {
    s.filter(|e: ElemModel| retryable(e))
}

/// The failed elements a round drops permanently, in order.
pub open spec fn dropped_part(s: Seq<ElemModel>) -> Seq<ElemModel> {
    s.filter(|e: ElemModel| !retryable(e))
}

/// The orchestrator's state: the entries awaiting dispatch, the failures
/// of the round under way, the permanently-failed report, and the root
/// directory all destination paths start from.
pub struct DownloadManager {
    pending: Vec<DownloadElement>,
    fails: Vec<DownloadElement>,
    unrecoverable: Vec<DownloadElement>,
    local_dir_path: String,
}

impl DownloadManager {
    pub closed spec fn pending_model(&self) -> Seq<ElemModel> {
        models_of(self.pending@)
    }

    pub closed spec fn fails_model(&self) -> Seq<ElemModel> {
        models_of(self.fails@)
    }

    pub closed spec fn unrecoverable_model(&self) -> Seq<ElemModel> {
        models_of(self.unrecoverable@)
    }

    pub closed spec fn local_dir_model(&self) -> Seq<char> {
        self.local_dir_path@
    }

    pub fn new(path: String) -> (r: Self)
        ensures
            r.pending_model() == Seq::<ElemModel>::empty(),
            r.fails_model() == Seq::<ElemModel>::empty(),
            r.unrecoverable_model() == Seq::<ElemModel>::empty(),
            r.local_dir_model() == path@,
    {
        let r = DownloadManager {
            pending: Vec::new(),
            fails: Vec::new(),
            unrecoverable: Vec::new(),
            local_dir_path: path,
        };
        proof {
            assert(models_of(Seq::<DownloadElement>::empty()) =~= Seq::<ElemModel>::empty());
        }
        r
    }

    pub fn local_dir_path(&self) -> (r: &str)
        ensures
            r@ == self.local_dir_model(),
    {
        self.local_dir_path.as_str()
    }

    /// The failures recorded by the round under way.
    pub fn fails(&self) -> (r: &Vec<DownloadElement>)
        ensures
            models_of(r@) == self.fails_model(),
    {
        &self.fails
    }

    /// The entries awaiting dispatch.
    pub fn pending(&self) -> (r: &Vec<DownloadElement>)
        ensures
            models_of(r@) == self.pending_model(),
    {
        &self.pending
    }

    /// The permanently-failed report: every entry dropped after the
    /// retry ceiling was exceeded.
    pub fn unrecoverable(&self) -> (r: &Vec<DownloadElement>)
        ensures
            models_of(r@) == self.unrecoverable_model(),
    {
        &self.unrecoverable
    }

    /// Whether another round must be dispatched.
    pub fn has_pending(&self) -> (r: bool)
        ensures
            r == (self.pending_model().len() > 0),
    {
        self.pending.len() > 0
    }

    /// Dispatching: hands the whole pending set out for transfer and
    /// clears the failure accounting, so the new round owns it alone.
    pub fn take_pending(&mut self) -> (batch: Vec<DownloadElement>)
        ensures
            models_of(batch@) == old(self).pending_model(),
            final(self).pending_model() == Seq::<ElemModel>::empty(),
            final(self).fails_model() == Seq::<ElemModel>::empty(),
            final(self).unrecoverable_model() == old(self).unrecoverable_model(),
            final(self).local_dir_model() == old(self).local_dir_model(),
    {
        let mut batch: Vec<DownloadElement> = Vec::new();
        core::mem::swap(&mut batch, &mut self.pending);
        self.fails = Vec::new();
        proof {
            assert(models_of(Seq::<DownloadElement>::empty()) =~= Seq::<ElemModel>::empty());
        }
        batch
    }

    /// Collecting: a transfer of `element` failed; one more attempt is
    /// recorded and the element joins this round's failure set. Calls for
    /// concurrent units are serialized by the caller, in any order.
    pub fn record_failure(&mut self, element: DownloadElement)
        requires
            element.dl_tries < 255,
        ensures
            final(self).fails_model() == old(self).fails_model().push(bumped(element@)),
            final(self).pending_model() == old(self).pending_model(),
            final(self).unrecoverable_model() == old(self).unrecoverable_model(),
            final(self).local_dir_model() == old(self).local_dir_model(),
    {
        let ghost em = element@;
        let ghost before = self.fails@;
        let bumped_element = DownloadElement {
            url: element.url,
            path: element.path,
            dl_tries: element.dl_tries + 1,
            hash: element.hash,
        };
        let ghost pushed = bumped_element;
        proof {
            assert(pushed@ == bumped(em));
        }
        self.fails.push(bumped_element);
        proof {
            broadcast use vstd::prelude::Seq::lemma_push_map_commute;

            assert(models_of(before.push(pushed)) == models_of(before).push(pushed@));
        }
    }

    /// Retrying: after a round's units have all reported, the failures
    /// still within the retry ceiling become the next pending set, in
    /// order; the rest move to the permanently-failed report. The round's
    /// failure set is cleared either way.
    pub fn finish_round(&mut self)
        ensures
            final(self).pending_model() == old(self).pending_model() + retry_part(
                old(self).fails_model(),
            ),
            final(self).unrecoverable_model() == old(self).unrecoverable_model() + dropped_part(
                old(self).fails_model(),
            ),
            final(self).fails_model() == Seq::<ElemModel>::empty(),
            final(self).local_dir_model() == old(self).local_dir_model(),
    {
        let mut collected: Vec<DownloadElement> = Vec::new();
        core::mem::swap(&mut collected, &mut self.fails);
        let ghost m = models_of(collected@);
        let n = collected.len();
        let mut i: usize = 0;
        proof {
            assert(models_of(Seq::<DownloadElement>::empty()) =~= Seq::<ElemModel>::empty());
            assert(retry_part(m.take(0)) =~= Seq::<ElemModel>::empty());
            assert(dropped_part(m.take(0)) =~= Seq::<ElemModel>::empty());
            assert(old(self).pending_model() + retry_part(m.take(0)) =~= old(
                self,
            ).pending_model());
            assert(old(self).unrecoverable_model() + dropped_part(m.take(0)) =~= old(
                self,
            ).unrecoverable_model());
        }
        while i < n
            invariant
                n == collected@.len(),
                m == models_of(collected@),
                0 <= i <= n,
                self.pending_model() == old(self).pending_model() + retry_part(m.take(i as int)),
                self.unrecoverable_model() == old(self).unrecoverable_model() + dropped_part(
                    m.take(i as int),
                ),
                self.fails_model() == Seq::<ElemModel>::empty(),
                self.local_dir_model() == old(self).local_dir_model(),
            decreases n - i,
        {
            let element = collected[i].clone();
            if element.dl_tries <= MAX_TRIES {
                self.pending.push(element);
            } else {
                self.unrecoverable.push(element);
            }
            proof {
                broadcast use vstd::prelude::Seq::lemma_push_map_commute;
                broadcast use vstd::prelude::Seq::lemma_filter_push;
                broadcast use vstd::prelude::Seq::lemma_take_succ_push;

                assert(m.take(i + 1) =~= m.take(i as int).push(m[i as int]));
                assert(m[i as int] == collected@[i as int]@);
                assert(self.pending_model() == old(self).pending_model() + retry_part(
                    m.take(i + 1),
                ));
                assert(self.unrecoverable_model() == old(self).unrecoverable_model()
                    + dropped_part(m.take(i + 1)));
            }
            i += 1;
        }
        proof {
            assert(m.take(n as int) =~= m);
        }
    }
}

/// The entry a library descriptor yields: its artifact URL, the library
/// destination derived from the artifact's repository path, and the
/// artifact's hash.
pub open spec fn library_entry(local: Seq<char>, lib: Library) -> ElemModel {
    ElemModel {
        url: lib.downloads.artifact.url@,
        path: local + "libs/"@ + spec_file_name(lib.downloads.artifact.path@),
        dl_tries: 0,
        hash: Some(lib.downloads.artifact.sha1@),
    }
}

/// The entry the asset-index descriptor yields, destined for
/// `assets/indexes/`.
pub open spec fn asset_index_entry(local: Seq<char>, index: AssetIndex) -> ElemModel {
    ElemModel {
        url: index.url@,
        path: local + "assets/indexes/"@ + spec_file_name(index.url@),
        dl_tries: 0,
        hash: Some(index.sha1@),
    }
}

/// The entry one named asset object yields. Both the URL and the
/// destination are derived from the content hash alone: the object's
/// name plays no part.
pub open spec fn asset_entry(local: Seq<char>, named: (String, Object)) -> ElemModel {
    ElemModel {
        url: "https://resources.download.minecraft.net/"@ + named.1.hash@.subrange(0, 2) + "/"@
            + named.1.hash@,
        path: local + "assets/objects"@ + "/"@ + named.1.hash@.subrange(0, 2) + "/"@
            + named.1.hash@,
        dl_tries: 0,
        hash: Some(named.1.hash@),
    }
}

/// The entry for the main game artifact, at the root of the tree.
pub open spec fn game_artifact_entry(local: Seq<char>, client: Client) -> ElemModel {
    ElemModel {
        url: client.url@,
        path: local + "client.jar"@,
        dl_tries: 0,
        hash: Some(client.sha1@),
    }
}

/// The entries the library population appends: one per library whose
/// destination is missing, in manifest order.
pub open spec fn library_entries(local: Seq<char>, libs: Seq<Library>, present: Seq<bool>) -> Seq<
    ElemModel,
>
    decreases libs.len(),
{
    if libs.len() == 0 {
        Seq::empty()
    } else {
        library_entries(local, libs.drop_last(), present.drop_last()) + (if present[libs.len()
            - 1] {
            Seq::<ElemModel>::empty()
        } else {
            seq![library_entry(local, libs.last())]
        })
    }
}

/// The entries the asset population appends: one per asset object whose
/// destination is missing, in manifest order.
pub open spec fn asset_entries(
    local: Seq<char>,
    objects: Seq<(String, Object)>,
    present: Seq<bool>,
) -> Seq<ElemModel>
    decreases objects.len(),
{
    if objects.len() == 0 {
        Seq::empty()
    } else {
        asset_entries(local, objects.drop_last(), present.drop_last()) + (if present[objects.len()
            - 1] {
            Seq::<ElemModel>::empty()
        } else {
            seq![asset_entry(local, objects.last())]
        })
    }
}

proof fn lemma_library_entries_take_succ(
    local: Seq<char>,
    libs: Seq<Library>,
    present: Seq<bool>,
    i: int,
)
    requires
        0 <= i < libs.len(),
        present.len() == libs.len(),
    ensures
        library_entries(local, libs.take(i + 1), present.take(i + 1)) == library_entries(
            local,
            libs.take(i),
            present.take(i),
        ) + (if present[i] {
            Seq::<ElemModel>::empty()
        } else {
            seq![library_entry(local, libs[i])]
        }),
{
    assert(libs.take(i + 1).drop_last() =~= libs.take(i));
    assert(present.take(i + 1).drop_last() =~= present.take(i));
    assert(libs.take(i + 1).last() == libs[i]);
}

proof fn lemma_asset_entries_take_succ(
    local: Seq<char>,
    objects: Seq<(String, Object)>,
    present: Seq<bool>,
    i: int,
)
    requires
        0 <= i < objects.len(),
        present.len() == objects.len(),
    ensures
        asset_entries(local, objects.take(i + 1), present.take(i + 1)) == asset_entries(
            local,
            objects.take(i),
            present.take(i),
        ) + (if present[i] {
            Seq::<ElemModel>::empty()
        } else {
            seq![asset_entry(local, objects[i])]
        }),
{
    assert(objects.take(i + 1).drop_last() =~= objects.take(i));
    assert(present.take(i + 1).drop_last() =~= present.take(i));
    assert(objects.take(i + 1).last() == objects[i]);
}

impl DownloadManager {
    /// Population of the library set: one entry per library whose
    /// destination is missing (`libs_present[i]` tells whether library
    /// `i`'s destination already exists on disk) and, unless
    /// `index_present`, one entry for the asset index.
    pub fn populate_libraries(
        &mut self,
        root: &LibsRoot,
        libs_present: &Vec<bool>,
        index_present: bool,
    )
        requires
            libs_present@.len() == root.libraries@.len(),
        ensures
            final(self).pending_model() == old(self).pending_model() + library_entries(
                old(self).local_dir_model(),
                root.libraries@,
                libs_present@,
            ) + (if index_present {
                Seq::<ElemModel>::empty()
            } else {
                seq![asset_index_entry(old(self).local_dir_model(), root.asset_index)]
            }),
            final(self).fails_model() == old(self).fails_model(),
            final(self).unrecoverable_model() == old(self).unrecoverable_model(),
            final(self).local_dir_model() == old(self).local_dir_model(),
    {
        let ghost local = self.local_dir_model();
        let ghost libs = root.libraries@;
        let n = root.libraries.len();
        let mut i: usize = 0;
        proof {
            assert(library_entries(local, libs.take(0), libs_present@.take(0))
                =~= Seq::<ElemModel>::empty());
            assert(self.pending_model() + library_entries(local, libs.take(0), libs_present@.take(0))
                =~= self.pending_model());
        }
        while i < n
            invariant
                n == libs.len(),
                libs == root.libraries@,
                libs_present@.len() == libs.len(),
                local == old(self).local_dir_model(),
                0 <= i <= n,
                self.pending_model() == old(self).pending_model() + library_entries(
                    local,
                    libs.take(i as int),
                    libs_present@.take(i as int),
                ),
                self.fails_model() == old(self).fails_model(),
                self.unrecoverable_model() == old(self).unrecoverable_model(),
                self.local_dir_model() == old(self).local_dir_model(),
            decreases n - i,
        {
            if !libs_present[i] {
                let lib = &root.libraries[i];
                let path = get_lib_path_from_url(
                    self.local_dir_path.clone(),
                    lib.downloads.artifact.path.as_str(),
                );
                let element = DownloadElement {
                    url: lib.downloads.artifact.url.clone(),
                    path,
                    dl_tries: 0,
                    hash: Some(lib.downloads.artifact.sha1.clone()),
                };
                let ghost pushed = element;
                let ghost before = self.pending@;
                proof {
                    assert(pushed@ == library_entry(local, libs[i as int]));
                }
                self.pending.push(element);
                proof {
                    broadcast use vstd::prelude::Seq::lemma_push_map_commute;

                    assert(models_of(before.push(pushed)) == models_of(before).push(pushed@));
                }
            }
            proof {
                lemma_library_entries_take_succ(local, libs, libs_present@, i as int);
            }
            i += 1;
        }
        proof {
            assert(libs.take(n as int) =~= libs);
            assert(libs_present@.take(n as int) =~= libs_present@);
        }
        if !index_present {
            let mut path = self.local_dir_path.clone();
            let dir = Directory::Indexes.as_str();
            path.append(dir.as_str());
            let name = get_file_name_from_url(root.asset_index.url.as_str());
            path.append(name.as_str());
            let element = DownloadElement {
                url: root.asset_index.url.clone(),
                path,
                dl_tries: 0,
                hash: Some(root.asset_index.sha1.clone()),
            };
            let ghost pushed = element;
            let ghost before = self.pending@;
            proof {
                assert(pushed@ == asset_index_entry(local, root.asset_index));
            }
            self.pending.push(element);
            proof {
                broadcast use vstd::prelude::Seq::lemma_push_map_commute;

                assert(models_of(before.push(pushed)) == models_of(before).push(pushed@));
            }
        } else {
            proof {
                assert(self.pending_model() + Seq::<ElemModel>::empty() =~= self.pending_model());
            }
        }
    }

    /// Population of the asset set: one content-addressed entry per
    /// asset object whose destination is missing. An object whose hash
    /// is shorter than two characters marks bad manifest data: nothing
    /// is appended and `MalformedHash` is surfaced immediately.
    pub fn populate_assets(&mut self, objects: &Vec<(String, Object)>, present: &Vec<bool>) -> (r:
        Result<(), DownloadError>)
        requires
            present@.len() == objects@.len(),
        ensures
            r is Ok <==> (forall|i: int|
                0 <= i < objects@.len() ==> (#[trigger] objects@[i]).1.hash@.len() >= 2),
            r is Ok ==> final(self).pending_model() == old(self).pending_model() + asset_entries(
                old(self).local_dir_model(),
                objects@,
                present@,
            ),
            r is Err ==> final(self).pending_model() == old(self).pending_model() && r == Err::<
                (),
                DownloadError,
            >(DownloadError::MalformedHash),
            final(self).fails_model() == old(self).fails_model(),
            final(self).unrecoverable_model() == old(self).unrecoverable_model(),
            final(self).local_dir_model() == old(self).local_dir_model(),
    {
        let n = objects.len();
        let mut i: usize = 0;
        while i < n
            invariant
                n == objects@.len(),
                0 <= i <= n,
                forall|j: int| 0 <= j < i ==> (#[trigger] objects@[j]).1.hash@.len() >= 2,
            decreases n - i,
        {
            let named = &objects[i];
            if named.1.hash.as_str().unicode_len() < 2 {
                return Err(DownloadError::MalformedHash);
            }
            i += 1;
        }
        let ghost local = self.local_dir_model();
        let ghost objs = objects@;
        let mut i: usize = 0;
        proof {
            assert(asset_entries(local, objs.take(0), present@.take(0))
                =~= Seq::<ElemModel>::empty());
            assert(self.pending_model() + asset_entries(local, objs.take(0), present@.take(0))
                =~= self.pending_model());
        }
        while i < n
            invariant
                n == objs.len(),
                objs == objects@,
                present@.len() == objs.len(),
                local == old(self).local_dir_model(),
                0 <= i <= n,
                forall|j: int| 0 <= j < n ==> (#[trigger] objs[j]).1.hash@.len() >= 2,
                self.pending_model() == old(self).pending_model() + asset_entries(
                    local,
                    objs.take(i as int),
                    present@.take(i as int),
                ),
                self.fails_model() == old(self).fails_model(),
                self.unrecoverable_model() == old(self).unrecoverable_model(),
                self.local_dir_model() == old(self).local_dir_model(),
            decreases n - i,
        {
            if !present[i] {
                let named = &objects[i];
                let hash = named.1.hash.as_str();
                let mut url = "https://resources.download.minecraft.net/".to_owned();
                let prefix = hash.substring_char(0, 2);
                url.append(prefix);
                url.append("/");
                url.append(hash);
                match get_asset_path_from_hash(self.local_dir_path.clone(), hash) {
                    Ok(p) => {
                        let element = DownloadElement {
                            url,
                            path: p.1,
                            dl_tries: 0,
                            hash: Some(named.1.hash.clone()),
                        };
                        let ghost pushed = element;
                        let ghost before = self.pending@;
                        proof {
                            assert(pushed@ == asset_entry(local, objs[i as int]));
                        }
                        self.pending.push(element);
                        proof {
                            broadcast use vstd::prelude::Seq::lemma_push_map_commute;

                            assert(models_of(before.push(pushed)) == models_of(before).push(
                                pushed@,
                            ));
                        }
                    },
                    Err(e) => {
                        proof {
                            assert(false);
                        }
                        return Err(e);
                    },
                }
            }
            proof {
                lemma_asset_entries_take_succ(local, objs, present@, i as int);
            }
            i += 1;
        }
        proof {
            assert(objs.take(n as int) =~= objs);
            assert(present@.take(n as int) =~= present@);
        }
        Ok(())
    }

    /// Population of the game artifact: one entry for the main artifact
    /// at the root of the tree, unless its destination already exists.
    pub fn populate_game_artifact(&mut self, root: &LibsRoot, present: bool)
        ensures
            final(self).pending_model() == old(self).pending_model() + (if present {
                Seq::<ElemModel>::empty()
            } else {
                seq![game_artifact_entry(old(self).local_dir_model(), root.client)]
            }),
            final(self).fails_model() == old(self).fails_model(),
            final(self).unrecoverable_model() == old(self).unrecoverable_model(),
            final(self).local_dir_model() == old(self).local_dir_model(),
    {
        if !present {
            let mut path = self.local_dir_path.clone();
            path.append("client.jar");
            let element = DownloadElement {
                url: root.client.url.clone(),
                path,
                dl_tries: 0,
                hash: Some(root.client.sha1.clone()),
            };
            let ghost pushed = element;
            let ghost before = self.pending@;
            proof {
                assert(pushed@ == game_artifact_entry(old(self).local_dir_model(), root.client));
            }
            self.pending.push(element);
            proof {
                broadcast use vstd::prelude::Seq::lemma_push_map_commute;

                assert(models_of(before.push(pushed)) == models_of(before).push(pushed@));
            }
        } else {
            proof {
                assert(self.pending_model() + Seq::<ElemModel>::empty() =~= self.pending_model());
            }
        }
    }
}

/// Builder idempotence, library part: over an unchanged directory where
/// every library destination already exists, a second population run
/// appends nothing.
pub proof fn lemma_library_entries_all_present(
    local: Seq<char>,
    libs: Seq<Library>,
    present: Seq<bool>,
)
    requires
        present.len() == libs.len(),
        forall|i: int| 0 <= i < present.len() ==> present[i],
    ensures
        library_entries(local, libs, present) == Seq::<ElemModel>::empty(),
    decreases libs.len(),
{
    if libs.len() > 0 {
        lemma_library_entries_all_present(local, libs.drop_last(), present.drop_last());
        assert(library_entries(local, libs, present) =~= Seq::<ElemModel>::empty());
    }
}

/// Builder idempotence, asset part: over an unchanged directory where
/// every asset destination already exists, a second population run
/// appends nothing.
pub proof fn lemma_asset_entries_all_present(
    local: Seq<char>,
    objects: Seq<(String, Object)>,
    present: Seq<bool>,
)
    requires
        present.len() == objects.len(),
        forall|i: int| 0 <= i < present.len() ==> present[i],
    ensures
        asset_entries(local, objects, present) == Seq::<ElemModel>::empty(),
    decreases objects.len(),
{
    if objects.len() > 0 {
        lemma_asset_entries_all_present(local, objects.drop_last(), present.drop_last());
        assert(asset_entries(local, objects, present) =~= Seq::<ElemModel>::empty());
    }
}

/// Content-addressing: two asset objects that carry the same hash yield
/// entries with the identical URL and the identical destination path,
/// whatever their source names.
pub proof fn lemma_content_addressing(
    local: Seq<char>,
    a: (String, Object),
    b: (String, Object),
)
    requires
        a.1.hash@ == b.1.hash@,
    ensures
        asset_entry(local, a).path == asset_entry(local, b).path,
        asset_entry(local, a).url == asset_entry(local, b).url,
{
}

/// The directory-layout invariant behind content addressing: two asset
/// entries can resolve to the same destination path only if they also
/// carry the same expected hash.
pub proof fn lemma_same_path_same_hash(
    local: Seq<char>,
    a: (String, Object),
    b: (String, Object),
)
    requires
        a.1.hash@.len() >= 2,
        b.1.hash@.len() >= 2,
        asset_entry(local, a).path == asset_entry(local, b).path,
    ensures
        asset_entry(local, a).hash == asset_entry(local, b).hash,
{
    reveal_strlit("assets/objects");
    reveal_strlit("/");
    let pa = asset_entry(local, a).path;
    let pb = asset_entry(local, b).path;
    let ha = a.1.hash@;
    let hb = b.1.hash@;
    let k = local.len() + "assets/objects"@.len() + 1 + 2 + 1;
    assert(pa.len() == k + ha.len());
    assert(pb.len() == k + hb.len());
    assert(ha =~= pa.subrange(k as int, pa.len() as int));
    assert(hb =~= pb.subrange(k as int, pb.len() as int));
}

/// Every entry of a batch after its transfers all failed: one more
/// attempt recorded on each.
pub open spec fn bump_all(s: Seq<ElemModel>) -> Seq<ElemModel> {
    s.map_values(|e: ElemModel| bumped(e))
}

/// The pending set after one round in which every dispatched entry
/// fails: each entry records one more attempt, and only those still
/// within the retry ceiling are kept.
pub open spec fn all_fail_round(pending: Seq<ElemModel>) -> Seq<ElemModel> {
    retry_part(bump_all(pending))
}

/// The entries such a round drops permanently.
pub open spec fn all_fail_dropped(pending: Seq<ElemModel>) -> Seq<ElemModel> {
    dropped_part(bump_all(pending))
}

/// The pending set after `rounds` consecutive all-failing rounds.
pub open spec fn all_fail_rounds(pending: Seq<ElemModel>, rounds: nat) -> Seq<ElemModel>
    decreases rounds,
{
    if rounds == 0 {
        pending
    } else {
        all_fail_round(all_fail_rounds(pending, (rounds - 1) as nat))
    }
}

/// The glue between the orchestrator's methods and the round model:
/// when every entry of a dispatched batch `p` fails and is recorded in
/// dispatch order, the failure set reads `bump_all(p)`, and
/// `finish_round` then retries exactly `all_fail_round(p)` and drops
/// exactly `all_fail_dropped(p)`.
pub proof fn lemma_round_composition(p: Seq<ElemModel>)
    ensures
        retry_part(bump_all(p)) == all_fail_round(p),
        dropped_part(bump_all(p)) == all_fail_dropped(p),
{
}

proof fn lemma_round_singleton(e: ElemModel)
    ensures
        all_fail_round(seq![e]) == (if retryable(bumped(e)) {
            seq![bumped(e)]
        } else {
            Seq::<ElemModel>::empty()
        }),
        all_fail_dropped(seq![e]) == (if retryable(bumped(e)) {
            Seq::<ElemModel>::empty()
        } else {
            seq![bumped(e)]
        }),
{
    broadcast use vstd::prelude::Seq::lemma_push_map_commute;
    broadcast use vstd::prelude::Seq::lemma_filter_push;

    let empty = Seq::<ElemModel>::empty();
    assert(seq![e] =~= empty.push(e));
    assert(bump_all(empty) =~= empty);
    assert(bump_all(empty.push(e)) =~= empty.push(bumped(e)));
    assert(empty.filter(|x: ElemModel| retryable(x)) =~= empty);
    assert(empty.filter(|x: ElemModel| !retryable(x)) =~= empty);
    if retryable(bumped(e)) {
        assert(all_fail_round(seq![e]) =~= seq![bumped(e)]);
        assert(all_fail_dropped(seq![e]) =~= empty);
    } else {
        assert(all_fail_round(seq![e]) =~= empty);
        assert(all_fail_dropped(seq![e]) =~= seq![bumped(e)]);
    }
}

proof fn lemma_round_of_empty()
    ensures
        all_fail_round(Seq::<ElemModel>::empty()) == Seq::<ElemModel>::empty(),
{
    let empty = Seq::<ElemModel>::empty();
    assert(bump_all(empty) =~= empty);
    assert(empty.filter(|x: ElemModel| retryable(x)) =~= empty);
    assert(all_fail_round(empty) =~= empty);
}

proof fn lemma_rounds_stay_empty(pending: Seq<ElemModel>, from: nat, rounds: nat)
    requires
        from <= rounds,
        all_fail_rounds(pending, from) == Seq::<ElemModel>::empty(),
    ensures
        all_fail_rounds(pending, rounds) == Seq::<ElemModel>::empty(),
    decreases rounds,
{
    if rounds > from {
        lemma_rounds_stay_empty(pending, from, (rounds - 1) as nat);
        lemma_round_of_empty();
    }
}

/// Retry termination: an entry that fails every attempt is dispatched on
/// exactly `MAX_TRIES + 1` rounds — the initial attempt and `MAX_TRIES`
/// retries, with its attempt count growing by one per round. The round
/// after the last retry drops it into the permanently-failed report with
/// `MAX_TRIES + 1` recorded attempts, and every later pending set is
/// empty: the entry is never dispatched again.
pub proof fn lemma_retry_termination(e: ElemModel)
    requires
        e.dl_tries == 0,
    ensures
        forall|k: nat|
            k <= MAX_TRIES as nat ==> #[trigger] all_fail_rounds(seq![e], k) == seq![
                with_tries(e, k),
            ],
        all_fail_dropped(all_fail_rounds(seq![e], MAX_TRIES as nat)) == seq![
            with_tries(e, MAX_TRIES as nat + 1),
        ],
        forall|k: nat|
            k > MAX_TRIES as nat ==> #[trigger] all_fail_rounds(seq![e], k) == Seq::<
                ElemModel,
            >::empty(),
{
    assert(with_tries(e, 0) == e);
    assert(bumped(with_tries(e, 0)) == with_tries(e, 1));
    assert(bumped(with_tries(e, 1)) == with_tries(e, 2));
    assert(bumped(with_tries(e, 2)) == with_tries(e, 3));
    assert(bumped(with_tries(e, 3)) == with_tries(e, 4));
    lemma_round_singleton(with_tries(e, 0));
    lemma_round_singleton(with_tries(e, 1));
    lemma_round_singleton(with_tries(e, 2));
    lemma_round_singleton(with_tries(e, 3));
    assert(all_fail_rounds(seq![e], 0) == seq![with_tries(e, 0)]);
    assert(all_fail_rounds(seq![e], 1) == seq![with_tries(e, 1)]);
    assert(all_fail_rounds(seq![e], 2) == seq![with_tries(e, 2)]);
    assert(all_fail_rounds(seq![e], 3) == seq![with_tries(e, 3)]);
    assert(all_fail_rounds(seq![e], 4) == Seq::<ElemModel>::empty());
    assert forall|k: nat| k <= MAX_TRIES as nat implies #[trigger] all_fail_rounds(seq![e], k)
        == seq![with_tries(e, k)] by {
        if k == 0 {
        } else if k == 1 {
        } else if k == 2 {
        } else {
            assert(k == 3);
        }
    }
    assert forall|k: nat| k > MAX_TRIES as nat implies #[trigger] all_fail_rounds(seq![e], k)
        == Seq::<ElemModel>::empty() by {
        lemma_rounds_stay_empty(seq![e], 4, k);
    }
}

proof fn lemma_bump_all_multiset(s1: Seq<ElemModel>, s2: Seq<ElemModel>)
    requires
        s1.to_multiset() == s2.to_multiset(),
    ensures
        bump_all(s1).to_multiset() == bump_all(s2).to_multiset(),
    decreases s1.len(),
{
    broadcast use vstd::seq_lib::group_to_multiset_ensures;
    broadcast use vstd::prelude::Seq::lemma_push_map_commute;

    if s1.len() == 0 {
        assert(s2.len() == s1.to_multiset().len());
        assert(bump_all(s1) =~= Seq::<ElemModel>::empty());
        assert(bump_all(s2) =~= Seq::<ElemModel>::empty());
    } else {
        let x = s1.last();
        let rest1 = s1.drop_last();
        assert(rest1.push(x) =~= s1);
        assert(s1.to_multiset() == rest1.to_multiset().insert(x));
        assert(s1.to_multiset().count(x) > 0);
        assert(s2.to_multiset().count(x) > 0);
        assert(s2.contains(x));
        let j = choose|j: int| 0 <= j < s2.len() && s2[j] == x;
        let rest2 = s2.remove(j);
        assert(rest2.to_multiset() =~= s2.to_multiset().remove(x));
        assert(rest1 =~= s1.remove(s1.len() - 1));
        assert(rest1.to_multiset() =~= s1.to_multiset().remove(x));
        assert(rest1.to_multiset() == rest2.to_multiset());
        lemma_bump_all_multiset(rest1, rest2);
        assert(bump_all(s1) =~= bump_all(rest1).push(bumped(x)));
        assert(bump_all(s1).to_multiset() == bump_all(rest1).to_multiset().insert(bumped(x)));
        assert(bump_all(rest2) =~= bump_all(s2).remove(j));
        assert(bump_all(s2)[j] == bumped(x));
        assert(bump_all(s2).remove(j).to_multiset() =~= bump_all(s2).to_multiset().remove(
            bumped(x),
        ));
        assert(bump_all(s2).to_multiset().count(bumped(x)) > 0) by {
            assert(bump_all(s2).contains(bumped(x)));
        }
        assert(bump_all(s1).to_multiset() =~= bump_all(s2).to_multiset());
    }
}

/// Collecting loses nothing and duplicates nothing: when every unit of a
/// dispatched batch fails, the failure set built by `record_failure`
/// holds exactly one once-bumped entry per dispatched entry — its size
/// is exactly the batch's size — whatever order the concurrent units
/// report in (any recording order that is a permutation of the batch).
pub proof fn lemma_collection_complete(batch: Seq<ElemModel>, recorded: Seq<ElemModel>)
    requires
        recorded.to_multiset() == batch.to_multiset(),
    ensures
        bump_all(recorded).len() == batch.len(),
        bump_all(recorded).to_multiset() == bump_all(batch).to_multiset(),
{
    broadcast use vstd::seq_lib::group_to_multiset_ensures;

    assert(recorded.len() == recorded.to_multiset().len());
    assert(batch.len() == batch.to_multiset().len());
    lemma_bump_all_multiset(recorded, batch);
}

impl Default for DownloadManager {
    /// An orchestrator with nothing pending, nothing failed, and an empty
    /// root directory.
    fn default() -> (r: Self)
        ensures
            r.pending_model() == Seq::<ElemModel>::empty(),
            r.fails_model() == Seq::<ElemModel>::empty(),
            r.unrecoverable_model() == Seq::<ElemModel>::empty(),
            r.local_dir_model() == Seq::<char>::empty(),
    {
        DownloadManager::new(String::new())
    }
}

} // verus!
