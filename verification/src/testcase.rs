//! One stored fuzz input, with metadata and a lazily materialized payload.
//!
//! A `Testcase` is created by the driving loop when a new interesting input
//! is found, owned exclusively by the corpus that holds it once added, and
//! mutated in place (metadata growth, cache population) for its whole
//! lifetime. Removal from a corpus goes by the identity of the instance, not
//! by value equality of its fields: every testcase carries an opaque handle
//! that the corpus assigns at insertion time, so two testcases with equal
//! filenames added separately stay distinct.

use vstd::prelude::*;

use crate::errors::Error;
use crate::metadata::MetadataValue;
use crate::metadata::metadata_entries;
use crate::metadata::metadata_map_clone;
use crate::metadata::metadata_map_get;
use crate::metadata::metadata_map_insert;
use crate::metadata::metadata_map_len;
use crate::metadata::metadata_map_new;

verus! {

/// The fuzz input of a testcase, materialized in memory as its bytes.
#[derive(Debug)]
pub struct InputPayload {
    bytes: Vec<u8>,
}

impl View for InputPayload {
    type V = Seq<u8>;

    closed spec fn view(&self) -> Seq<u8> {
        self.bytes@
    }
}

impl InputPayload {
    /// Wraps the given input bytes.
    pub fn new(bytes: Vec<u8>) -> (p: Self)
        ensures
            p@ == bytes@,
    {
        InputPayload { bytes }
    }

    /// The input bytes.
    pub fn bytes(&self) -> (r: &Vec<u8>)
        ensures
            r@ == self@,
    {
        &self.bytes
    }
}

impl Clone for InputPayload {
    fn clone(&self) -> (r: Self)
        ensures
            r@ == self@,
    {
        let bytes = self.bytes.clone();
        proof {
            assert(bytes@ =~= self.bytes@);
        }
        InputPayload { bytes }
    }
}

/// One stored fuzz input plus its metadata and lazily loaded payload.
#[derive(Debug)]
pub struct Testcase {
    handle: u64,
    is_on_disk: bool,
    filename: String,
    metadata: hashbrown::HashMap<String, MetadataValue>,
    cached_input: Option<InputPayload>,
}

/// The parts of a testcase that identity-stamping leaves alone: everything
/// but the handle.
pub open spec fn same_testcase_payload(a: Testcase, b: Testcase) -> bool {
    &&& a.spec_is_on_disk() == b.spec_is_on_disk()
    &&& a.spec_filename() == b.spec_filename()
    &&& a.spec_metadata() == b.spec_metadata()
    &&& a.spec_cached_input() == b.spec_cached_input()
}

impl Testcase {
    /// The identity handle: `0` until a corpus takes ownership of the
    /// testcase, a unique positive value afterwards.
    pub closed spec fn spec_handle(&self) -> u64 {
        self.handle
    }

    /// Whether the payload is backed by a file rather than held in memory.
    pub closed spec fn spec_is_on_disk(&self) -> bool {
        self.is_on_disk
    }

    /// The logical identifier / join key to on-disk storage.
    pub closed spec fn spec_filename(&self) -> Seq<char> {
        self.filename@
    }

    /// The attached analysis results, keyed by kind.
    pub closed spec fn spec_metadata(&self) -> Map<Seq<char>, MetadataValue> {
        metadata_entries(self.metadata)
    }

    /// The cached payload bytes, if the payload was materialized.
    pub closed spec fn spec_cached_input(&self) -> Option<Seq<u8>> {
        match self.cached_input {
            Some(p) => Some(p@),
            None => None,
        }
    }

    /// Creates a fresh in-memory testcase for the file named `filename`,
    /// with no metadata and no materialized payload.
    pub fn new(filename: &str) -> (tc: Testcase)
        ensures
            tc.spec_handle() == 0,
            !tc.spec_is_on_disk(),
            tc.spec_filename() == filename@,
            (tc.spec_metadata() == Map::<Seq<char>, MetadataValue>::empty()),
            tc.spec_cached_input() is None,
    {
        Testcase {
            handle: 0,
            is_on_disk: false,
            filename: filename.to_owned(),
            metadata: metadata_map_new(),
            cached_input: None,
        }
    }

    /// The identity handle as a value, usable as a removal key.
    pub fn handle(&self) -> (h: u64)
        ensures
            h == self.spec_handle(),
    {
        self.handle
    }

    /// Stamps the identity handle; only a corpus does this, at insertion.
    pub(crate) fn set_handle(&mut self, h: u64)
        ensures
            final(self).spec_handle() == h,
            same_testcase_payload(*final(self), *old(self)),
    {
        self.handle = h;
    }

    /// Whether the payload is backed by a file.
    pub fn is_on_disk(&self) -> (r: bool)
        ensures
            r == self.spec_is_on_disk(),
    {
        self.is_on_disk
    }

    /// The name joining this testcase to its on-disk storage.
    pub fn get_filename(&self) -> (r: &str)
        ensures
            r@ == self.spec_filename(),
    {
        self.filename.as_str()
    }

    /// Lazily materializes the payload: the cached input if one was
    /// populated. The read-and-parse path for a backing file is an
    /// explicitly unfinished collaborator, so an uncached testcase reports
    /// `Unimplemented` — distinct from `LoadFailure`, which is reserved for
    /// a failed read of a backing file.
    pub fn load_input(&self) -> (r: Result<&InputPayload, Error>)
        ensures
            (match self.spec_cached_input() {
                Some(bytes) => match r {
                    Ok(p) => p@ == bytes,
                    Err(_) => false,
                },
                None => r == Err::<&InputPayload, Error>(Error::Unimplemented),
            }),
    {
        match &self.cached_input {
            Some(p) => Ok(p),
            None => Err(Error::Unimplemented),
        }
    }

    /// Populates the payload cache, as a successful load would.
    pub fn cache_input(&mut self, input: InputPayload)
        ensures
            final(self).spec_cached_input() == Some(input@),
            final(self).spec_handle() == old(self).spec_handle(),
            final(self).spec_is_on_disk() == old(self).spec_is_on_disk(),
            final(self).spec_filename() == old(self).spec_filename(),
            final(self).spec_metadata() == old(self).spec_metadata(),
    {
        self.cached_input = Some(input);
    }

    /// Attaches an analysis result under its kind key, returning the value
    /// the key previously held, if any.
    pub fn add_metadata(&mut self, key: String, value: MetadataValue) -> (prev: Option<
        MetadataValue,
    >)
        ensures
            (final(self).spec_metadata() == old(self).spec_metadata().insert(key@, value)),
            (match prev {
                Some(p) => old(self).spec_metadata().dom().contains(key@) && p == old(
                    self,
                ).spec_metadata()[key@],
                None => !old(self).spec_metadata().dom().contains(key@),
            }),
            final(self).spec_handle() == old(self).spec_handle(),
            final(self).spec_is_on_disk() == old(self).spec_is_on_disk(),
            final(self).spec_filename() == old(self).spec_filename(),
            final(self).spec_cached_input() == old(self).spec_cached_input(),
    {
        metadata_map_insert(&mut self.metadata, key, value)
    }

    /// Reads the analysis result stored under `key`, if one is attached.
    pub fn get_metadata(&self, key: &str) -> (r: Option<&MetadataValue>)
        ensures
            (match r {
                Some(v) => self.spec_metadata().dom().contains(key@) && *v
                    == self.spec_metadata()[key@],
                None => !self.spec_metadata().dom().contains(key@),
            }),
    {
        metadata_map_get(&self.metadata, key)
    }

    /// The number of attached analysis results.
    pub fn metadata_len(&self) -> (n: usize)
        ensures
            n == self.spec_metadata().dom().len(),
    {
        metadata_map_len(&self.metadata)
    }

    /// A mutable view of the whole metadata store, so collaborating
    /// subsystems can attach and read kind-specific data in place; every
    /// other part of the testcase is untouched by whatever they do with it.
    pub fn get_metadatas(&mut self) -> (r: &mut hashbrown::HashMap<String, MetadataValue>)
        ensures
            metadata_entries(*r) == old(self).spec_metadata(),
            final(self).spec_metadata() == metadata_entries(*final(r)),
            final(self).spec_handle() == old(self).spec_handle(),
            final(self).spec_is_on_disk() == old(self).spec_is_on_disk(),
            final(self).spec_filename() == old(self).spec_filename(),
            final(self).spec_cached_input() == old(self).spec_cached_input(),
    {
        &mut self.metadata
    }
}

impl Clone for Testcase {
    /// The copy keeps the handle and all payload fields, so a clone of an
    /// owned entry still identifies that entry for removal.
    fn clone(&self) -> (r: Self)
        ensures
            r.spec_handle() == self.spec_handle(),
            same_testcase_payload(r, *self),
    {
        Testcase {
            handle: self.handle,
            is_on_disk: self.is_on_disk,
            filename: self.filename.clone(),
            metadata: metadata_map_clone(&self.metadata),
            cached_input: match &self.cached_input {
                Some(p) => Some(p.clone()),
                None => None,
            },
        }
    }
}

} // verus!
