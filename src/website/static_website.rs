//! The resource cache of a static website.
//!
//! Resolving a request path takes one or two looks at the disk, which the
//! caller makes: first a metadata probe of the file, which `lookup` turns
//! into an outcome or a request to read the file; then, if asked, the read,
//! whose result `finish_read` turns into the outcome while it updates the
//! cache.

use crate::http::response::HttpResponse;
use crate::keyed::{
    entries_map, find_key, keys_distinct, lemma_entry_in_map, lemma_push_entry,
    lemma_replace_entry,
};
use crate::website::loaded_file::{reload_check, FileSnapshot, LoadedFile, ReloadError, ReloadResult};
use crate::website::paths::{normalize, normalized, resolved_path, resource_path};
use vstd::prelude::*;
use vstd::slice::slice_to_vec;

verus! {

/// What a metadata probe reported about the file behind a request path.
#[derive(Debug, PartialEq, Eq, Clone, Copy, Structural)]
pub enum FileProbe {
    /// There is no regular file at the path.
    Missing,
    /// There is a regular file, but its modification time could not be read.
    Unstamped,
    /// There is a regular file, last modified at this instant (nanoseconds
    /// since the Unix epoch).
    ModifiedAt(u64),
}

impl FileProbe {
    /// The modification time, where the probe found one.
    pub open spec fn modified(self) -> Option<u64> {
        match self {
            FileProbe::ModifiedAt(m) => Some(m),
            _ => None,
        }
    }
}

/// How a request path was resolved.
pub enum ResourceOutcome {
    /// The current contents of the file.
    Hit(Vec<u8>),
    /// The cached contents, served because bringing them up to date failed.
    StaleHit(Vec<u8>, ReloadError),
    /// No file backs the path.
    NotFound,
}

/// How a request path was resolved, as a value.
pub enum Resolution {
    Hit(Seq<u8>),
    StaleHit(Seq<u8>, ReloadError),
    NotFound,
}

impl View for ResourceOutcome {
    type V = Resolution;

    open spec fn view(&self) -> Resolution {
        match self {
            ResourceOutcome::Hit(b) => Resolution::Hit(b@),
            ResourceOutcome::StaleHit(b, e) => Resolution::StaleHit(b@, *e),
            ResourceOutcome::NotFound => Resolution::NotFound,
        }
    }
}

/// Whether `r` is the response for a resolution: the page for a hit, fresh
/// or stale, and the redirect to `/index.html` where no file backs the path.
pub open spec fn answers(res: Resolution, r: HttpResponse) -> bool {
    match res {
        Resolution::Hit(page) => r.serves_page(page),
        Resolution::StaleHit(page, _) => r.serves_page(page),
        Resolution::NotFound => r.redirects_to_index(),
    }
}

impl ResourceOutcome {
    /// The response that carries this outcome to the client.
    pub fn to_response(&self) -> (r: HttpResponse)
        ensures
            answers(self@, r),
            r.wf(),
    {
        match self {
            ResourceOutcome::Hit(page) => HttpResponse::from_page(page.as_slice()),
            ResourceOutcome::StaleHit(page, _) => HttpResponse::from_page(page.as_slice()),
            ResourceOutcome::NotFound => HttpResponse::redirect_to_index(),
        }
    }
}

/// What follows a metadata probe.
pub enum Lookup {
    /// The path is resolved.
    Done(ResourceOutcome),
    /// The file at this path must be read, and the result handed to
    /// `StaticWebsite::finish_read`.
    Read(String),
}

/// What follows a metadata probe, as a value.
pub enum LookupStep {
    Done(Resolution),
    Read(Seq<char>),
}

impl View for Lookup {
    type V = LookupStep;

    open spec fn view(&self) -> LookupStep {
        match self {
            Lookup::Done(o) => LookupStep::Done(o@),
            Lookup::Read(p) => LookupStep::Read(p@),
        }
    }
}

/// The step after probing the file behind `uri`, for a cache holding `cache`
/// and a public root `root`.
pub open spec fn lookup_step(
    cache: Map<Seq<char>, FileSnapshot>,
    root: Seq<char>,
    uri: Seq<char>,
    probe: FileProbe,
) -> LookupStep {
    let key = normalized(uri);
    match resolved_path(root, uri) {
        None => LookupStep::Done(Resolution::NotFound),
        Some(path) => if probe == FileProbe::Missing {
            LookupStep::Done(Resolution::NotFound)
        } else if cache.contains_key(key) {
            let file = cache[key];
            match reload_check(file.last_read, probe.modified()) {
                ReloadResult::NotNeeded => LookupStep::Done(Resolution::Hit(file.contents)),
                ReloadResult::ReadNeeded => LookupStep::Read(path),
                ReloadResult::ErrorDidntReload(e) => LookupStep::Done(
                    Resolution::StaleHit(file.contents, e),
                ),
            }
        } else {
            LookupStep::Read(path)
        },
    }
}

/// The cache and the outcome after reading the file behind `uri` at instant
/// `now`: `read` holds its bytes, or `None` where the read failed.
pub open spec fn read_step(
    cache: Map<Seq<char>, FileSnapshot>,
    root: Seq<char>,
    uri: Seq<char>,
    read: Option<Seq<u8>>,
    now: u64,
) -> (Map<Seq<char>, FileSnapshot>, Resolution) {
    let key = normalized(uri);
    match resolved_path(root, uri) {
        None => (cache, Resolution::NotFound),
        Some(path) => match read {
            Some(bytes) => (
                cache.insert(key, FileSnapshot { path, last_read: now, contents: bytes }),
                Resolution::Hit(bytes),
            ),
            None => if cache.contains_key(key) {
                (cache, Resolution::StaleHit(cache[key].contents, ReloadError::ReadFailed))
            } else {
                (cache, Resolution::NotFound)
            },
        },
    }
}

/// The bytes of a read, where it succeeded.
pub open spec fn read_bytes(read: Option<Vec<u8>>) -> Option<Seq<u8>> {
    match read {
        Some(v) => Some(v@),
        None => None,
    }
}

/// The files that a list of cache entries stands for, by key.
pub open spec fn cached_files(entries: Seq<(String, LoadedFile)>) -> Map<Seq<char>, FileSnapshot> {
    entries_map(entries).map_values(|f: LoadedFile| f@)
}

/// A copy of a byte vector.
fn copy_bytes(v: &Vec<u8>) -> (r: Vec<u8>)
    ensures
        r@ == v@,
{
    slice_to_vec(v.as_slice())
}

/// A website that serves the files under a public directory, keeping each
/// file it has read in a cache keyed by normalized request path.
pub struct StaticWebsite {
    public_directory: String,
    cache: Vec<(String, LoadedFile)>,
}

impl StaticWebsite {
    /// Each key has at most one cache entry.
    pub closed spec fn wf(&self) -> bool {
        keys_distinct(self.cache@)
    }

    /// The public root directory.
    pub closed spec fn root(&self) -> Seq<char> {
        self.public_directory@
    }

    /// The cached files, by key.
    pub closed spec fn cached(&self) -> Map<Seq<char>, FileSnapshot> {
        cached_files(self.cache@)
    }

    /// A website over `public_directory`, with nothing cached yet.
    pub fn new(public_directory: String) -> (r: Self)
        ensures
            r.wf(),
            r.root() == public_directory@,
            r.cached() == Map::<Seq<char>, FileSnapshot>::empty(),
    {
        let r = StaticWebsite { public_directory, cache: Vec::new() };
        assert(r.cached() =~= Map::<Seq<char>, FileSnapshot>::empty());
        r
    }

    /// The public root directory.
    pub fn public_directory(&self) -> (r: &str)
        ensures
            r@ == self.root(),
    {
        self.public_directory.as_str()
    }

    /// The file to probe for `uri`; `None` where the path would step outside
    /// the public root.
    pub fn locate(&self, uri: &str) -> (r: Option<String>)
        ensures
            match r {
                Some(p) => resolved_path(self.root(), uri@) == Some(p@),
                None => resolved_path(self.root(), uri@) is None,
            },
    {
        resource_path(self.public_directory.as_str(), uri)
    }

    /// Decides, from a probe of the file behind `uri`, whether the path is
    /// resolved or the file must be read first.
    pub fn lookup(&self, uri: &str, probe: FileProbe) -> (r: Lookup)
        requires
            self.wf(),
        ensures
            r@ == lookup_step(self.cached(), self.root(), uri@, probe),
    {
        let path = match resource_path(self.public_directory.as_str(), uri) {
            Some(p) => p,
            None => return Lookup::Done(ResourceOutcome::NotFound),
        };
        if probe == FileProbe::Missing {
            return Lookup::Done(ResourceOutcome::NotFound);
        }
        let key = normalize(uri);
        match find_key(&self.cache, &key) {
            None => Lookup::Read(path),
            Some(i) => {
                proof {
                    lemma_entry_in_map(self.cache@, i as int);
                }
                let file = &self.cache[i].1;
                let modified = match probe {
                    FileProbe::ModifiedAt(m) => Some(m),
                    _ => None,
                };
                match file.try_reload(modified) {
                    ReloadResult::NotNeeded => Lookup::Done(
                        ResourceOutcome::Hit(copy_bytes(&file.contents)),
                    ),
                    ReloadResult::ReadNeeded => Lookup::Read(path),
                    ReloadResult::ErrorDidntReload(e) => Lookup::Done(
                        ResourceOutcome::StaleHit(copy_bytes(&file.contents), e),
                    ),
                }
            },
        }
    }

    /// Takes the result of reading the file behind `uri` at instant `now`:
    /// fresh bytes replace the cached copy; a failed read leaves the cache as
    /// it was and serves the cached copy, if there is one.
    pub fn finish_read(&mut self, uri: &str, read: Option<Vec<u8>>, now: u64) -> (r:
        ResourceOutcome)
        requires
            old(self).wf(),
        ensures
            final(self).wf(),
            (final(self).cached(), r@) == read_step(
                old(self).cached(),
                old(self).root(),
                uri@,
                read_bytes(read),
                now,
            ),
            final(self).root() == old(self).root(),
    {
        let path = match resource_path(self.public_directory.as_str(), uri) {
            Some(p) => p,
            None => return ResourceOutcome::NotFound,
        };
        let key = normalize(uri);
        let found = find_key(&self.cache, &key);
        match read {
            Some(bytes) => {
                let served = copy_bytes(&bytes);
                let entry = (key, LoadedFile::from_read(path, bytes, now));
                let ghost before = self.cache@;
                match found {
                    Some(i) => {
                        proof {
                            lemma_replace_entry(before, i as int, entry);
                            assert(cached_files(before.update(i as int, entry)) =~= cached_files(
                                before,
                            ).insert(entry.0@, entry.1@));
                        }
                        self.cache.set(i, entry);
                    },
                    None => {
                        proof {
                            lemma_push_entry(before, entry);
                            assert(cached_files(before.push(entry)) =~= cached_files(
                                before,
                            ).insert(entry.0@, entry.1@));
                        }
                        self.cache.push(entry);
                    },
                }
                ResourceOutcome::Hit(served)
            },
            None => match found {
                Some(i) => {
                    proof {
                        lemma_entry_in_map(self.cache@, i as int);
                    }
                    ResourceOutcome::StaleHit(
                        copy_bytes(&self.cache[i].1.contents),
                        ReloadError::ReadFailed,
                    )
                },
                None => ResourceOutcome::NotFound,
            },
        }
    }
}

/// A file that has not been modified since it was read is read once: the
/// first resolution reads it, and the next one, probing the same
/// modification time, is answered from the cache with the bytes read.
pub proof fn lemma_unchanged_file_read_once(
    cache: Map<Seq<char>, FileSnapshot>,
    root: Seq<char>,
    uri: Seq<char>,
    bytes: Seq<u8>,
    modified: u64,
    read_at: u64,
)
    requires
        resolved_path(root, uri) is Some,
        !cache.contains_key(normalized(uri)),
        modified <= read_at,
    ensures
        lookup_step(cache, root, uri, FileProbe::ModifiedAt(modified)) == LookupStep::Read(
            resolved_path(root, uri)->0,
        ),
        read_step(cache, root, uri, Some(bytes), read_at).1 == Resolution::Hit(bytes),
        lookup_step(
            read_step(cache, root, uri, Some(bytes), read_at).0,
            root,
            uri,
            FileProbe::ModifiedAt(modified),
        ) == LookupStep::Done(Resolution::Hit(bytes)),
{
}

/// A cached file modified after it was read is read again, and the new bytes
/// are served and kept.
pub proof fn lemma_modified_file_reloaded(
    cache: Map<Seq<char>, FileSnapshot>,
    root: Seq<char>,
    uri: Seq<char>,
    bytes: Seq<u8>,
    modified: u64,
    read_at: u64,
)
    requires
        resolved_path(root, uri) is Some,
        cache.contains_key(normalized(uri)),
        cache[normalized(uri)].last_read < modified,
    ensures
        lookup_step(cache, root, uri, FileProbe::ModifiedAt(modified)) == LookupStep::Read(
            resolved_path(root, uri)->0,
        ),
        read_step(cache, root, uri, Some(bytes), read_at).1 == Resolution::Hit(bytes),
        read_step(cache, root, uri, Some(bytes), read_at).0[normalized(uri)].contents == bytes,
{
}

/// A path with no file behind it is resolved as not found, whatever the
/// cache holds, and answered with the redirect to `/index.html`.
pub proof fn lemma_missing_file_redirects(
    cache: Map<Seq<char>, FileSnapshot>,
    root: Seq<char>,
    uri: Seq<char>,
)
    ensures
        lookup_step(cache, root, uri, FileProbe::Missing) == LookupStep::Done(Resolution::NotFound),
        forall|r: HttpResponse|
            answers(Resolution::NotFound, r) ==> {
                &&& r.status.spec_code() == 301
                &&& r.header@ == "Location: /index.html"@
            },
{
}

} // verus!
