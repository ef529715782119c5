//! Content records and the resolution of a content identifier to its storage hash.

use vstd::prelude::*;
use crate::store::Lookup;

verus! {

/// Kind of media an entry refers to.
///
/// Each kind has a stable ordinal (0, 1, 2) that is used on the wire and in storage.
/// `Unspecified` is the kind with ordinal 0, for an entry that names no media kind.
#[derive(Clone, Copy, Debug, PartialEq, Eq, Structural)]
pub enum GuavaContentType {
    Unspecified,
    Sound,
    Video,
}

impl GuavaContentType {
    /// The stable ordinal of this kind.
    pub open spec fn spec_ordinal(self) -> u32 {
        match self {
            GuavaContentType::Unspecified => 0,
            GuavaContentType::Sound => 1,
            GuavaContentType::Video => 2,
        }
    }

    pub fn ordinal(&self) -> (r: u32)
        ensures
            r == self.spec_ordinal(),
    {
        match self {
            GuavaContentType::Unspecified => 0,
            GuavaContentType::Sound => 1,
            GuavaContentType::Video => 2,
        }
    }

    /// Decodes an ordinal; a value outside 0..=2 is refused rather than mapped to a default.
    pub fn from_ordinal(n: u32) -> (r: Option<GuavaContentType>)
        ensures
            match r {
                Some(t) => t.spec_ordinal() == n,
                None => n > 2,
            },
    {
        if n == 0 {
            Some(GuavaContentType::Unspecified)
        } else if n == 1 {
            Some(GuavaContentType::Sound)
        } else if n == 2 {
            Some(GuavaContentType::Video)
        } else {
            None
        }
    }
}

/// Distinct kinds have distinct ordinals, so decoding the ordinal of a kind gives
/// that kind back.
pub proof fn lemma_ordinal_round_trip(t: GuavaContentType, u: GuavaContentType)
    requires
        u.spec_ordinal() == t.spec_ordinal(),
    ensures
        u == t,
        t.spec_ordinal() <= 2,
{
}

/// A row of the content catalog: a stable identifier and the storage hash of its asset.
///
/// `content_id` is unique across the catalog; `hash` is the content-addressed key
/// under which the asset is stored.
#[derive(Clone, Debug)]
pub struct Content {
    pub content_id: String,
    pub content_type: GuavaContentType,
    pub hash: String,
}

/// Why a content identifier could not be resolved.
#[derive(Clone, Copy, Debug, PartialEq, Eq, Structural)]
pub enum ContentError {
    /// No record carries the identifier.
    NotFound,
    /// The store could not be queried.
    Backend,
}

/// What resolving `id` gives when the store's exact-match query on `content_id`
/// returned `found`.
///
/// A record whose identifier is not `id` is no match, so it resolves to `NotFound`.
pub open spec fn resolved(id: Seq<char>, found: Lookup<Content>) -> Result<Seq<char>, ContentError> {
    match found {
        Lookup::Found(c) => if c.content_id@ == id {
            Ok(c.hash@)
        } else {
            Err(ContentError::NotFound)
        },
        Lookup::Missing => Err(ContentError::NotFound),
        Lookup::Failed => Err(ContentError::Backend),
    }
}

/// Resolves the content identifier `id` to its storage hash, from the outcome
/// of the store's query for `id`.
pub fn resolve_hash(id: &String, found: Lookup<Content>) -> (r: Result<String, ContentError>)
    ensures
        match r {
            Ok(h) => resolved(id@, found) == Ok::<Seq<char>, ContentError>(h@),
            Err(e) => resolved(id@, found) == Err::<Seq<char>, ContentError>(e),
        },
{
    match found {
        Lookup::Found(c) => {
            if c.content_id == *id {
                Ok(c.hash)
            } else {
                Err(ContentError::NotFound)
            }
        },
        Lookup::Missing => Err(ContentError::NotFound),
        Lookup::Failed => Err(ContentError::Backend),
    }
}

/// A record that carries the identifier resolves to exactly that record's hash.
pub proof fn lemma_resolve_hash_of_record(id: Seq<char>, record: Content)
    requires
        record.content_id@ == id,
    ensures
        resolved(id, Lookup::Found(record)) == Ok::<Seq<char>, ContentError>(record.hash@),
{
}

/// Where no record carries the identifier, resolution fails with `NotFound`;
/// it never succeeds, with an empty hash or any other.
pub proof fn lemma_resolve_hash_without_record(id: Seq<char>, found: Lookup<Content>)
    requires
        match found {
            Lookup::Found(c) => c.content_id@ != id,
            Lookup::Missing => true,
            Lookup::Failed => false,
        },
    ensures
        resolved(id, found) == Err::<Seq<char>, ContentError>(ContentError::NotFound),
        !(resolved(id, found) is Ok),
{
}

} // verus!
