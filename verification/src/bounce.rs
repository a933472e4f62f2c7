use vstd::prelude::*;

verus! {

/// The fixed reflection depth: no ray traces more than this many segments.
pub const MAX_BOUNCES: usize = 5;

/// Whether the bounce loop traces another segment after `done` segments:
/// only while the nearest-hit reduction found a surface and the depth bound
/// is not yet exhausted.
pub open spec fn continues(done: nat, hit: bool) -> bool {
    hit && done < MAX_BOUNCES
}

/// The bounce loop's control state: how many reflection segments the current
/// ray has traced so far.
pub struct BounceState {
    pub segments: usize,
}

impl BounceState {
    /// The segment count never passes the depth bound.
    pub open spec fn wf(self) -> bool {
        self.segments <= MAX_BOUNCES
    }

    /// The state of a fresh primary ray: no segments traced yet.
    pub fn start() -> (s: BounceState)
        ensures
            s.segments == 0,
            s.wf(),
    {
        BounceState { segments: 0 }
    }

    /// Whether the depth bound is spent: no further segment may be traced,
    /// so the loop need not probe the scene again.
    pub fn exhausted(&self) -> (b: bool)
        ensures
            b == (self.segments == MAX_BOUNCES),
    {
        self.segments == MAX_BOUNCES
    }

    /// Decides one iteration of the bounce loop. `hit` says whether the
    /// nearest-hit reduction found a surface for the current ray; the result
    /// says whether another segment is traced, counting it if so, and leaves
    /// the state unchanged otherwise.
    pub fn advance(&mut self, hit: bool) -> (cont: bool)
        requires
            old(self).wf(),
        ensures
            final(self).wf(),
            cont == continues(old(self).segments as nat, hit),
            cont ==> final(self).segments == old(self).segments + 1,
            !cont ==> *final(self) == *old(self),
    {
        if hit && self.segments < MAX_BOUNCES {
            self.segments = self.segments + 1;
            true
        } else {
            false
        }
    }
}

/// The number of segments a run of the bounce loop ends with when `done`
/// segments are already traced and the successive nearest-hit outcomes are
/// `hits`.
pub open spec fn segments_from(hits: Seq<bool>, done: nat) -> nat
    decreases hits.len(),
{
    if hits.len() == 0 || !continues(done, hits[0]) {
        done
    } else {
        segments_from(hits.drop_first(), done + 1)
    }
}

/// The number of segments the bounce loop traces for a primary ray whose
/// successive nearest-hit outcomes are `hits`.
pub open spec fn segments_traced(hits: Seq<bool>) -> nat {
    segments_from(hits, 0)
}

/// A run that starts within the depth bound ends within it, and never
/// forgets segments already traced.
pub proof fn lemma_segments_from_bounded(hits: Seq<bool>, done: nat)
    requires
        done <= MAX_BOUNCES,
    ensures
        done <= segments_from(hits, done) <= MAX_BOUNCES,
    decreases hits.len(),
{
    if hits.len() == 0 || !continues(done, hits[0]) {
    } else {
        lemma_segments_from_bounded(hits.drop_first(), done + 1);
    }
}

/// The bounce loop runs at most `MAX_BOUNCES` segments for every scene and
/// ray: whatever hit outcomes the scene yields, even a ray that finds a
/// surface on every segment, the run stops within the depth bound.
pub proof fn lemma_bounce_bounded(hits: Seq<bool>)
    ensures
        segments_traced(hits) <= MAX_BOUNCES,
{
    lemma_segments_from_bounded(hits, 0);
}

} // verus!
