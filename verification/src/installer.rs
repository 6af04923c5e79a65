//! A model of atomic artifact replacement.
//!
//! The real installer writes the decoded payload to a temporary file
//! co-located with the destination and then renames it over the destination
//! in one atomic step.  This module models the two locations an install
//! touches and proves the guarantee that ordering buys: however far an
//! interrupted install got before the rename, the destination still holds
//! the complete prior artifact (or stays absent), never a partial write.
//! The caller performs the actual filesystem writes in the same step order.

use vstd::prelude::*;

verus! {

/// The two filesystem locations of one artifact install: the destination
/// path and its co-located temporary sibling.
pub struct InstallState {
    /// Complete content at the destination, absent when no artifact was
    /// ever installed there.
    pub dest: Option<Vec<u8>>,
    /// Content written to the temporary sibling so far.
    pub temp: Vec<u8>,
}

impl View for InstallState {
    type V = (Option<Seq<u8>>, Seq<u8>);

    open spec fn view(&self) -> (Option<Seq<u8>>, Seq<u8>) {
        (
            match self.dest {
                Some(ref v) => Some(v@),
                None => None,
            },
            self.temp@,
        )
    }
}

/// Writing a chunk of the payload to the temporary sibling: the destination
/// is untouched.
pub open spec fn spec_stage(s: (Option<Seq<u8>>, Seq<u8>), chunk: Seq<u8>) -> (
    Option<Seq<u8>>,
    Seq<u8>,
) {
    (s.0, s.1 + chunk)
}

/// The atomic rename: the staged content becomes the destination's content,
/// whole; the temporary sibling is gone.
pub open spec fn spec_commit(s: (Option<Seq<u8>>, Seq<u8>)) -> (Option<Seq<u8>>, Seq<u8>) {
    (Some(s.1), Seq::empty())
}

/// The state after an install that was interrupted `chunks.len()` writes in,
/// before the rename.
pub open spec fn spec_run_stages(s: (Option<Seq<u8>>, Seq<u8>), chunks: Seq<Seq<u8>>) -> (
    Option<Seq<u8>>,
    Seq<u8>,
)
    decreases chunks.len(),
{
    if chunks.len() == 0 {
        s
    } else {
        spec_run_stages(spec_stage(s, chunks[0]), chunks.drop_first())
    }
}

/// The whole payload the chunks make up.
pub open spec fn spec_concat(chunks: Seq<Seq<u8>>) -> Seq<u8>
    decreases chunks.len(),
{
    if chunks.len() == 0 {
        Seq::empty()
    } else {
        chunks[0] + spec_concat(chunks.drop_first())
    }
}

impl InstallState {
    /// Start an install over whatever the destination currently holds.
    pub fn begin(existing: Option<Vec<u8>>) -> (s: Self)
        ensures
            s@.0 == match existing {
                Some(ref v) => Some::<Seq<u8>>(v@),
                None => None::<Seq<u8>>,
            },
            s@.1 == Seq::<u8>::empty(),
    {
        InstallState { dest: existing, temp: Vec::new() }
    }

    /// Append one chunk of the decoded payload to the temporary sibling.
    pub fn stage(&mut self, chunk: &[u8])
        ensures
            final(self)@ == spec_stage(old(self)@, chunk@),
    {
        let n = chunk.len();
        let mut i: usize = 0;
        while i < n
            invariant
                n == chunk@.len(),
                i <= n,
                self.dest == old(self).dest,
                self.temp@ == old(self).temp@ + chunk@.take(i as int),
            decreases n - i,
        {
            self.temp.push(chunk[i]);
            proof {
                assert(old(self).temp@ + chunk@.take(i + 1) =~= (old(self).temp@ + chunk@.take(
                    i as int,
                )).push(chunk@[i as int]));
            }
            i += 1;
        }
        proof {
            assert(chunk@.take(n as int) =~= chunk@);
        }
    }

    /// Atomically rename the temporary sibling onto the destination.  A
    /// concurrent reader of the destination sees the complete old content
    /// before this step and the complete new content after it.
    pub fn commit(&mut self)
        ensures
            final(self)@ == spec_commit(old(self)@),
    {
        let mut payload: Vec<u8> = Vec::new();
        std::mem::swap(&mut payload, &mut self.temp);
        self.dest = Some(payload);
    }
}

/// Law: an install interrupted before the rename — after any number of
/// partial writes — leaves the destination exactly as it was: the prior
/// complete artifact, or absent when none existed.
pub proof fn lemma_interrupted_install_keeps_destination(
    s: (Option<Seq<u8>>, Seq<u8>),
    chunks: Seq<Seq<u8>>,
)
    ensures
        spec_run_stages(s, chunks).0 == s.0,
    decreases chunks.len(),
{
    if chunks.len() > 0 {
        lemma_interrupted_install_keeps_destination(spec_stage(s, chunks[0]), chunks.drop_first());
    }
}

/// Law: a completed install publishes the whole staged payload at the
/// destination in one step.
pub proof fn lemma_commit_installs_whole_payload(dest0: Option<Seq<u8>>, chunks: Seq<Seq<u8>>)
    ensures
        spec_commit(spec_run_stages((dest0, Seq::empty()), chunks)).0 == Some(
            spec_concat(chunks),
        ),
{
    lemma_stages_accumulate((dest0, Seq::empty()), chunks);
    assert(Seq::<u8>::empty() + spec_concat(chunks) =~= spec_concat(chunks));
}

proof fn lemma_stages_accumulate(s: (Option<Seq<u8>>, Seq<u8>), chunks: Seq<Seq<u8>>)
    ensures
        spec_run_stages(s, chunks).1 == s.1 + spec_concat(chunks),
    decreases chunks.len(),
{
    if chunks.len() == 0 {
        assert(s.1 + spec_concat(chunks) =~= s.1);
    } else {
        lemma_stages_accumulate(spec_stage(s, chunks[0]), chunks.drop_first());
        assert((s.1 + chunks[0]) + spec_concat(chunks.drop_first()) =~= s.1 + (chunks[0]
            + spec_concat(chunks.drop_first())));
    }
}

} // verus!
