//! Object metadata and the persistent cache record.
//!
//! `ObjectMeta` mirrors what the remote object store reports for one object.
//! `CachedMetadata` is the small local record remembering the generation of
//! the last successfully installed object; it is serialised to a single-line
//! text record here, while reading and writing the record file is the
//! caller's concern.

use vstd::prelude::*;
use vstd::string::*;

use crate::error::Error;
use crate::text::{first_index_of, spec_starts_with, str_starts_with};

verus! {

/// Metadata of one remote object, as the store reports it.  `generation` is
/// an opaque version marker, compared by equality only.
#[derive(Clone, Debug)]
pub struct ObjectMeta {
    /// Identifier within the store, path-like.
    pub name: String,
    /// Opaque version marker.
    pub generation: String,
    /// Direct fetch URL for the object's bytes.
    pub media_link: String,
    /// Byte count, informational.
    pub size: u64,
}

/// The local record of the last successfully installed object.
#[derive(Clone, Debug)]
pub struct CachedMetadata {
    /// The installed object's generation marker.
    pub generation: String,
}

/// A usable generation marker: non-empty and single-line, so that it can be
/// stored in a line-oriented cache record.
pub open spec fn valid_generation(g: Seq<char>) -> bool {
    g.len() > 0 && forall|i: int| 0 <= i < g.len() ==> g[i] != '\n'
}

/// Reject remote metadata whose generation marker is absent or malformed,
/// instead of guessing a default.
pub fn validate_metadata(meta: &ObjectMeta) -> (r: Result<(), Error>)
    ensures
        r is Ok <==> valid_generation(meta.generation@),
        r is Err ==> r == Err::<(), Error>(Error::MalformedResponse),
{
    let n = meta.generation.as_str().unicode_len();
    if n == 0 {
        return Err(Error::MalformedResponse);
    }
    match first_index_of(meta.generation.as_str(), '\n') {
        Some(_) => Err(Error::MalformedResponse),
        None => Ok(()),
    }
}

/// The cached record a generation marker is saved as: one `generation=` line.
pub open spec fn spec_encode_cache(g: Seq<char>) -> Seq<char> {
    "generation="@ + g + "\n"@
}

/// Index of the first newline in `s`, or `s.len()` when there is none.
pub open spec fn spec_first_newline(s: Seq<char>) -> int
    decreases s.len(),
{
    if s.len() == 0 {
        0
    } else if s[0] == '\n' {
        0
    } else {
        1 + spec_first_newline(s.drop_first())
    }
}

/// The generation marker held by a cache record, if the record is well
/// formed: its first line must be `generation=` followed by a non-empty
/// value.
pub open spec fn spec_parse_cache(s: Seq<char>) -> Option<Seq<char>> {
    let line = s.take(spec_first_newline(s));
    if spec_starts_with(line, "generation="@) && line.len() > "generation="@.len() {
        Some(line.skip("generation="@.len() as int))
    } else {
        None
    }
}

proof fn lemma_first_newline_at(s: Seq<char>, i: int)
    requires
        0 <= i <= s.len(),
        forall|k: int| 0 <= k < i ==> s[k] != '\n',
        i < s.len() ==> s[i] == '\n',
    ensures
        spec_first_newline(s) == i,
    decreases s.len(),
{
    if s.len() == 0 {
    } else if s[0] == '\n' {
        assert(i == 0);
    } else {
        assert(i >= 1);
        lemma_first_newline_at(s.drop_first(), i - 1);
    }
}

/// Serialise the record; `parse_cache` reads it back.
pub fn encode_cache(m: &CachedMetadata) -> (r: String)
    ensures
        r@ == spec_encode_cache(m.generation@),
{
    String::from_str("generation=").concat(m.generation.as_str()).concat("\n")
}

/// Read a cache record back.  Absence of the file and a record this function
/// rejects are treated identically by the staleness decision, so a corrupt
/// record simply triggers reinstallation.
pub fn parse_cache(s: &str) -> (r: Option<CachedMetadata>)
    ensures
        match r {
            Some(m) => spec_parse_cache(s@) == Some(m.generation@) && valid_generation(
                m.generation@,
            ),
            None => spec_parse_cache(s@) is None,
        },
{
    let sn = s.unicode_len();
    let end = match first_index_of(s, '\n') {
        Some(i) => {
            proof {
                lemma_first_newline_at(s@, i as int);
            }
            i
        },
        None => {
            proof {
                lemma_first_newline_at(s@, sn as int);
            }
            sn
        },
    };
    let line = s.substring_char(0, end);
    let key = "generation=";
    let kn = key.unicode_len();
    if !str_starts_with(line, key) {
        return None;
    }
    let ln = line.unicode_len();
    if ln <= kn {
        return None;
    }
    let value = line.substring_char(kn, ln);
    proof {
        assert(value@ =~= line@.skip("generation="@.len() as int));
        assert forall|k: int| 0 <= k < value@.len() implies value@[k] != '\n' by {
            assert(value@[k] == s@[kn + k]);
        }
    }
    Some(CachedMetadata { generation: String::from_str(value) })
}

/// The record to persist after a successful install of `meta`.
pub fn cached_from_remote(meta: &ObjectMeta) -> (r: CachedMetadata)
    ensures
        r.generation@ == meta.generation@,
{
    CachedMetadata { generation: meta.generation.clone() }
}

/// Law: saving a cache record and loading it back yields the identical
/// generation marker.
pub proof fn lemma_cache_round_trip(g: Seq<char>)
    requires
        valid_generation(g),
    ensures
        spec_parse_cache(spec_encode_cache(g)) == Some(g),
{
    reveal_strlit("generation=");
    reveal_strlit("\n");
    let key = "generation="@;
    let s = spec_encode_cache(g);
    assert(s.len() == key.len() + g.len() + 1);
    assert forall|k: int| 0 <= k < key.len() + g.len() implies s[k] != '\n' by {
        if k < key.len() {
            assert(s[k] == key[k]);
        } else {
            assert(s[k] == g[k - key.len()]);
        }
    }
    assert(s[key.len() + g.len() as int] == '\n');
    lemma_first_newline_at(s, key.len() + g.len() as int);
    let line = s.take(key.len() + g.len() as int);
    assert(line.subrange(0, key.len() as int) =~= key);
    assert(line.len() > key.len());
    assert(line.skip(key.len() as int) =~= g);
}

} // verus!
