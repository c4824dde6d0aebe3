//! The orchestrator's stage sequence. A run moves through the stages in one
//! fixed order, with no branching and no retry; any failure moves it to the
//! terminal failed stage. The IP line is printed exactly at the transition
//! into `ExtractedIp`, so the visit log pins down whether a run printed it.

use vstd::prelude::*;

verus! {

/// The stages of one run, in the order they are entered.
#[derive(Clone, Copy, Debug, PartialEq, Eq, Structural)]
pub enum Stage {
    Init,
    FetchedPage,
    ExtractedIp,
    Downloaded,
    Decoded,
    Playing,
    Done,
    Failed,
}

/// The stage entered after `s` when its work succeeds.
pub open spec fn next_stage(s: Stage) -> Stage {
    match s {
        Stage::Init => Stage::FetchedPage,
        Stage::FetchedPage => Stage::ExtractedIp,
        Stage::ExtractedIp => Stage::Downloaded,
        Stage::Downloaded => Stage::Decoded,
        Stage::Decoded => Stage::Playing,
        Stage::Playing => Stage::Done,
        Stage::Done => Stage::Done,
        Stage::Failed => Stage::Failed,
    }
}

/// The stage a successful run has entered after `i` transitions.
pub open spec fn canonical_stage(i: int) -> Stage {
    if i <= 0 {
        Stage::Init
    } else if i == 1 {
        Stage::FetchedPage
    } else if i == 2 {
        Stage::ExtractedIp
    } else if i == 3 {
        Stage::Downloaded
    } else if i == 4 {
        Stage::Decoded
    } else if i == 5 {
        Stage::Playing
    } else {
        Stage::Done
    }
}

/// The full canonical order of a successful run.
pub open spec fn canonical_order() -> Seq<Stage> {
    Seq::new(7, |i: int| canonical_stage(i))
}

/// One run of the pipeline: its current stage, and the log of the stages
/// it has entered, failure aside, in order.
pub struct Pipeline {
    stage: Stage,
    visited: Ghost<Seq<Stage>>,
}

impl Pipeline {
    /// The current stage of the run.
    pub closed spec fn stage_spec(&self) -> Stage {
        self.stage
    }

    /// The stages the run has entered, in order, the failed stage aside.
    pub closed spec fn visit_log(&self) -> Seq<Stage> {
        self.visited@
    }

    /// The visit log is always a prefix of the canonical order, and the
    /// run stands at its last entry unless it has failed.
    pub open spec fn wf(&self) -> bool {
        &&& 1 <= self.visit_log().len() <= canonical_order().len()
        &&& self.visit_log() == canonical_order().take(self.visit_log().len() as int)
        &&& (self.stage_spec() is Failed || self.stage_spec() == self.visit_log().last())
    }

    /// Starts a run at the initial stage.
    pub fn new() -> (p: Pipeline)
        ensures
            p.wf(),
            p.stage_spec() is Init,
            p.visit_log() =~= seq![Stage::Init],
    {
        let ghost start: Seq<Stage> = seq![Stage::Init];
        let p = Pipeline { stage: Stage::Init, visited: Ghost(start) };
        proof {
            assert(p.visited@ =~= canonical_order().take(1));
        }
        p
    }

    /// Moves the run to the next stage after the current stage's work
    /// succeeded.
    pub fn advance(&mut self)
        requires
            old(self).wf(),
            !(old(self).stage_spec() is Done),
            !(old(self).stage_spec() is Failed),
        ensures
            final(self).wf(),
            final(self).stage_spec() == next_stage(old(self).stage_spec()),
            final(self).visit_log() == old(self).visit_log().push(final(self).stage_spec()),
    {
        let next = match self.stage {
            Stage::Init => Stage::FetchedPage,
            Stage::FetchedPage => Stage::ExtractedIp,
            Stage::ExtractedIp => Stage::Downloaded,
            Stage::Downloaded => Stage::Decoded,
            Stage::Decoded => Stage::Playing,
            Stage::Playing => Stage::Done,
            Stage::Done => Stage::Done,
            Stage::Failed => Stage::Failed,
        };
        proof {
            let len = self.visited@.len() as int;
            assert(self.stage == canonical_stage(len - 1));
            assert(len < 7);
            assert(self.visited@.push(next_stage(self.stage)) =~= canonical_order().take(len + 1));
        }
        self.stage = next;
        self.visited = Ghost(self.visited@.push(next));
    }

    /// Moves the run to the terminal failed stage.
    pub fn fail(&mut self)
        requires
            old(self).wf(),
        ensures
            final(self).wf(),
            final(self).stage_spec() is Failed,
            final(self).visit_log() == old(self).visit_log(),
    {
        self.stage = Stage::Failed;
    }

    /// The current stage of the run.
    pub fn stage(&self) -> (s: Stage)
        ensures
            s == self.stage_spec(),
    {
        self.stage
    }
}

/// A run that finished visited every stage of the canonical order, the
/// printing stage among them, each exactly once.
pub proof fn lemma_done_ran_whole_pipeline(p: Pipeline)
    requires
        p.wf(),
        p.stage_spec() is Done,
    ensures
        p.visit_log() =~= canonical_order(),
        forall|i: int, j: int|
            0 <= i < j < p.visit_log().len() ==> p.visit_log()[i] != p.visit_log()[j],
{
    let len = p.visit_log().len() as int;
    assert(p.visit_log().last() == canonical_stage(len - 1));
    assert(len == 7);
}

/// A run enters the stage at which the IP line is printed only after the
/// page was fetched; a run that failed before then never reaches it, so it
/// prints no IP line.
pub proof fn lemma_printing_needs_fetch(p: Pipeline)
    requires
        p.wf(),
    ensures
        p.visit_log().contains(Stage::ExtractedIp) ==> p.visit_log().contains(Stage::FetchedPage),
        p.visit_log().contains(Stage::ExtractedIp) <==> p.visit_log().len() >= 3,
{
    let log = p.visit_log();
    if log.contains(Stage::ExtractedIp) {
        let i = choose|i: int| 0 <= i < log.len() && log[i] == Stage::ExtractedIp;
        assert(log[i] == canonical_stage(i));
        assert(i == 2);
        assert(log[1] == Stage::FetchedPage);
    }
    if log.len() >= 3 {
        assert(log[2] == Stage::ExtractedIp);
    }
}

} // verus!
