//! Selecting the vendor bundle to install.
//!
//! Remote vendor candidates are narrowed to archive objects, then to the
//! ones matching this host's OS family, and finally — when more than one
//! remains — an interactive numeric choice decides.  Reading terminal input
//! and `/etc/os-release`-style files stays with the caller; the narrowing
//! and the interpretation of each input line are decided here.

use vstd::prelude::*;
use vstd::seq_lib::*;
use vstd::string::*;

use crate::error::Error;
use crate::metadata::ObjectMeta;
use crate::text::{
    digits_val, is_digits, last_index_of, lemma_last_index_of_at, parse_usize, spec_contains,
    spec_ends_with, spec_last_index_of, spec_trim, str_contains, str_ends_with, str_eq, trim,
};

verus! {

/// The OS families vendor bundles are built for.  A closed set by design:
/// extendable, not exhaustive.
#[derive(Clone, Copy, Debug, PartialEq, Eq, Structural)]
pub enum OsReleaseId {
    Amazon,
    CentOs,
    Debian,
    Ubuntu,
}

/// The substring that marks a vendor bundle as built for `id`.
pub open spec fn spec_filter_key(id: OsReleaseId) -> Seq<char> {
    match id {
        OsReleaseId::Amazon => "amazon"@,
        OsReleaseId::CentOs => "centos"@,
        OsReleaseId::Debian => "debian"@,
        OsReleaseId::Ubuntu => "ubuntu"@,
    }
}

/// The OS family a released `ID` value names, if recognised.
pub open spec fn spec_from_os_release_id(s: Seq<char>) -> Option<OsReleaseId> {
    if s == "amzn"@ {
        Some(OsReleaseId::Amazon)
    } else if s == "centos"@ {
        Some(OsReleaseId::CentOs)
    } else if s == "debian"@ {
        Some(OsReleaseId::Debian)
    } else if s == "ubuntu"@ {
        Some(OsReleaseId::Ubuntu)
    } else {
        None
    }
}

impl OsReleaseId {
    /// The candidate-name substring keyed to this OS family.
    pub fn filter_key(&self) -> (r: &'static str)
        ensures
            r@ == spec_filter_key(*self),
    {
        match self {
            OsReleaseId::Amazon => "amazon",
            OsReleaseId::CentOs => "centos",
            OsReleaseId::Debian => "debian",
            OsReleaseId::Ubuntu => "ubuntu",
        }
    }

    /// Recognise the `ID` value of an os-release record.  An unrecognised
    /// identity leaves the host unresolved, which disables filtering.
    pub fn from_os_release_id(s: &str) -> (r: Option<OsReleaseId>)
        ensures
            r == spec_from_os_release_id(s@),
    {
        if str_eq(s, "amzn") {
            Some(OsReleaseId::Amazon)
        } else if str_eq(s, "centos") {
            Some(OsReleaseId::CentOs)
        } else if str_eq(s, "debian") {
            Some(OsReleaseId::Debian)
        } else if str_eq(s, "ubuntu") {
            Some(OsReleaseId::Ubuntu)
        } else {
            None
        }
    }
}

/// Is `o` a vendor archive object (a `.tar.xz` name)?
pub open spec fn spec_is_archive(o: ObjectMeta) -> bool {
    spec_ends_with(o.name@, ".tar.xz"@)
}

/// Does `o`'s name mark it as built for the OS family `id`?
pub open spec fn spec_matches_os(o: ObjectMeta, id: OsReleaseId) -> bool {
    spec_contains(o.name@, spec_filter_key(id))
}

/// Keep only the vendor archive objects of a store listing.
pub fn filter_vendor_archives(input: Vec<ObjectMeta>) -> (r: Vec<ObjectMeta>)
    ensures
        r@ == input@.filter(|o: ObjectMeta| spec_is_archive(o)),
{
    let ghost orig = input@;
    let total = input.len();
    let mut input = input;
    let mut out: Vec<ObjectMeta> = Vec::new();
    let ghost pred = |o: ObjectMeta| spec_is_archive(o);
    proof {
        assert(orig.take(0).filter(pred) =~= Seq::<ObjectMeta>::empty());
    }
    let mut i: usize = 0;
    while input.len() > 0
        invariant
            total == orig.len(),
            orig.len() == i + input@.len(),
            input@ =~= orig.skip(i as int),
            out@ == orig.take(i as int).filter(pred),
            pred == (|o: ObjectMeta| spec_is_archive(o)),
        decreases input@.len(),
    {
        let o = input.remove(0);
        assert(o == orig[i as int]);
        let keep = str_ends_with(o.name.as_str(), ".tar.xz");
        proof {
            reveal(Seq::filter);
            assert(orig.take(i + 1).drop_last() =~= orig.take(i as int));
            assert(orig.take(i + 1).last() == orig[i as int]);
        }
        if keep {
            out.push(o);
        }
        i += 1;
    }
    proof {
        assert(orig.take(i as int) =~= orig);
    }
    out
}

/// Narrow candidates to this host's OS family.  An unresolved host identity
/// keeps every candidate: the filter is then the identity transform.
pub fn filter_by_os_release(input: Vec<ObjectMeta>, host_os: Option<OsReleaseId>) -> (r: Vec<
    ObjectMeta,
>)
    ensures
        match host_os {
            None => r@ == input@,
            Some(id) => r@ == input@.filter(|o: ObjectMeta| spec_matches_os(o, id)),
        },
{
    let id = match host_os {
        None => {
            return input;
        },
        Some(id) => id,
    };
    let key = id.filter_key();
    let ghost orig = input@;
    let total = input.len();
    let mut input = input;
    let mut out: Vec<ObjectMeta> = Vec::new();
    let ghost pred = |o: ObjectMeta| spec_matches_os(o, id);
    proof {
        assert(orig.take(0).filter(pred) =~= Seq::<ObjectMeta>::empty());
    }
    let mut i: usize = 0;
    while input.len() > 0
        invariant
            total == orig.len(),
            orig.len() == i + input@.len(),
            input@ =~= orig.skip(i as int),
            out@ == orig.take(i as int).filter(pred),
            pred == (|o: ObjectMeta| spec_matches_os(o, id)),
            key@ == spec_filter_key(id),
        decreases input@.len(),
    {
        let o = input.remove(0);
        assert(o == orig[i as int]);
        let keep = str_contains(o.name.as_str(), key);
        proof {
            reveal(Seq::filter);
            assert(orig.take(i + 1).drop_last() =~= orig.take(i as int));
            assert(orig.take(i + 1).last() == orig[i as int]);
        }
        if keep {
            out.push(o);
        }
        i += 1;
    }
    proof {
        assert(orig.take(i as int) =~= orig);
    }
    out
}

/// The short display name of a store object: the final segment of its
/// path-like name.
pub open spec fn spec_display_name(name: Seq<char>) -> Seq<char> {
    name.skip(spec_last_index_of(name, '/') + 1)
}

/// The short display names of the candidates, in order, for the numbered
/// menu the caller prints.
pub fn get_display_name(objects: &Vec<ObjectMeta>) -> (r: Vec<String>)
    ensures
        r@.len() == objects@.len(),
        forall|i: int|
            0 <= i < r@.len() ==> r@[i]@ == spec_display_name(#[trigger] objects@[i].name@),
{
    let mut out: Vec<String> = Vec::new();
    let mut i: usize = 0;
    while i < objects.len()
        invariant
            i <= objects@.len(),
            out@.len() == i,
            forall|k: int|
                0 <= k < i ==> out@[k]@ == spec_display_name(#[trigger] objects@[k].name@),
        decreases objects@.len() - i,
    {
        let name = objects[i].name.as_str();
        let n = name.unicode_len();
        let tail = match last_index_of(name, '/') {
            Some(p) => {
                proof {
                    lemma_last_index_of_at(name@, '/', p as int);
                }
                name.substring_char(p + 1, n)
            },
            None => {
                proof {
                    lemma_last_index_of_at(name@, '/', -1);
                    assert(name@.skip(0) =~= name@);
                }
                name
            },
        };
        out.push(String::from_str(tail));
        i += 1;
    }
    out
}

/// What one line of interactive input chooses among `count` candidates:
/// the trimmed line must be a run of digits denoting a number in
/// `[1, count]`; the choice is that number, zero-based.
pub open spec fn spec_choice_of(line: Seq<char>, count: int) -> Option<int> {
    let t = spec_trim(line);
    if is_digits(t) && 1 <= digits_val(t) <= count {
        Some(digits_val(t) - 1)
    } else {
        None
    }
}

/// Interpret one line of interactive input.  Rejected lines make the caller
/// re-prompt.
pub fn parse_choice(input: &str, count: usize) -> (r: Option<usize>)
    ensures
        match r {
            Some(v) => spec_choice_of(input@, count as int) == Some(v as int) && v < count,
            None => spec_choice_of(input@, count as int) is None,
        },
{
    let t = trim(input);
    match parse_usize(t) {
        Some(v) => {
            if 1 <= v && v <= count {
                Some(v - 1)
            } else {
                None
            }
        },
        None => None,
    }
}

/// The first choice a sequence of input lines settles on, zero-based.
pub open spec fn spec_first_choice(inputs: Seq<Seq<char>>, count: int) -> Option<int>
    decreases inputs.len(),
{
    if inputs.len() == 0 {
        None
    } else if spec_choice_of(inputs[0], count) is Some {
        spec_choice_of(inputs[0], count)
    } else {
        spec_first_choice(inputs.drop_first(), count)
    }
}

/// Choose the vendor bundle to install.  No candidate is fatal; a single
/// candidate is chosen without prompting; otherwise the input lines are
/// read in order until one parses as a number in `[1, count]`, rejecting
/// every other line.  `Ok(None)` means the supplied lines ran out without a
/// valid choice and the caller must prompt for more.
pub fn select_vendor_files(objects: &Vec<ObjectMeta>, inputs: &Vec<String>) -> (r: Result<
    Option<usize>,
    Error,
>)
    ensures
        objects@.len() == 0 <==> r == Err::<Option<usize>, Error>(Error::NoCandidates),
        objects@.len() == 1 ==> r == Ok::<Option<usize>, Error>(Some(0usize)),
        objects@.len() > 1 ==> r == match spec_first_choice(
            inputs.deep_view(),
            objects@.len() as int,
        ) {
            Some(i) => Ok::<Option<usize>, Error>(Some(i as usize)),
            None => Ok::<Option<usize>, Error>(None),
        },
        r matches Ok(Some(i)) ==> i < objects@.len(),
{
    let count = objects.len();
    if count == 0 {
        return Err(Error::NoCandidates);
    }
    if count == 1 {
        return Ok(Some(0));
    }
    let mut k: usize = 0;
    proof {
        assert(inputs.deep_view().skip(0) =~= inputs.deep_view());
    }
    while k < inputs.len()
        invariant
            k <= inputs@.len(),
            count == objects@.len(),
            count > 1,
            spec_first_choice(inputs.deep_view(), count as int) == spec_first_choice(
                inputs.deep_view().skip(k as int),
                count as int,
            ),
        decreases inputs@.len() - k,
    {
        let line = inputs[k].as_str();
        proof {
            assert(inputs.deep_view().skip(k as int)[0] == inputs.deep_view()[k as int]);
            assert(inputs.deep_view()[k as int] == inputs@[k as int]@);
        }
        match parse_choice(line, count) {
            Some(v) => {
                return Ok(Some(v));
            },
            None => {},
        }
        proof {
            assert(inputs.deep_view().skip(k as int).drop_first() =~= inputs.deep_view().skip(
                k + 1,
            ));
        }
        k += 1;
    }
    proof {
        assert(inputs.deep_view().skip(k as int).len() == 0);
    }
    Ok(None)
}

} // verus!
