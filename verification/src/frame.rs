//! What one call for a whole display refresh did.

use crate::devices::GpuState;
use crate::step::StepReport;
use vstd::prelude::*;

verus! {

/// How many of `reports` handed a completed frame to the backend.
pub open spec fn presented_in(reports: Seq<StepReport>) -> nat
    decreases reports.len(),
{
    if reports.len() == 0 {
        0
    } else {
        presented_in(reports.drop_last()) + if reports.last().frame_presented() {
            1nat
        } else {
            0nat
        }
    }
}

/// The display controller reported entering vertical blanking in exactly
/// those steps across which its polled state went from outside vertical
/// blanking to inside.
pub open spec fn edges_reported(polls: Seq<GpuState>, reports: Seq<StepReport>) -> bool {
    forall|i: int|
        0 <= i < reports.len() ==> (#[trigger] reports[i].frame_presented() <==> polls[i]
            != GpuState::VBlank && polls[i + 1] == GpuState::VBlank)
}

/// What a call for one display refresh did.
pub struct FrameReport {
    /// The refresh ran to its end: the display was seen in vertical blanking
    /// and then seen to leave it.
    pub completed: bool,
    /// The steps taken before the display was first seen in vertical
    /// blanking.
    pub drawing_steps: u64,
    /// All steps taken.
    pub steps: u64,
    /// The completed frames handed to the backend.
    pub frames_presented: u64,
    /// The display state on return.
    pub state: GpuState,
    /// The key state polled from the backend before the first step.
    pub keys: u16,
    /// The display state as polled before the first step and after each.
    pub polls: Ghost<Seq<GpuState>>,
    /// What each step did.
    pub reports: Ghost<Seq<StepReport>>,
}

impl FrameReport {
    /// What holds of a call while it runs within a budget of `budget` steps.
    pub open spec fn progressed(&self, budget: u64) -> bool {
        &&& self.steps <= budget
        &&& self.frames_presented <= self.steps
        &&& self.reports@.len() == self.steps
        &&& self.polls@.len() == self.steps + 1
        &&& self.state == self.polls@[self.steps as int]
        &&& forall|i: int| 0 <= i < self.steps ==> (#[trigger] self.reports@[i]).wf()
        &&& self.frames_presented == presented_in(self.reports@)
    }

    /// What holds of every call that ran within a budget of `budget` steps.
    pub open spec fn wf(&self, budget: u64) -> bool {
        &&& self.drawing_steps <= self.steps <= budget
        &&& self.reports@.len() == self.steps
        &&& self.polls@.len() == self.steps + 1
        &&& forall|i: int| 0 <= i < self.steps ==> (#[trigger] self.reports@[i]).wf()
        &&& forall|i: int|
            0 <= i < self.drawing_steps ==> #[trigger] self.polls@[i] != GpuState::VBlank
        &&& forall|i: int|
            self.drawing_steps <= i < self.steps ==> #[trigger] self.polls@[i] == GpuState::VBlank
        &&& self.state == self.polls@[self.steps as int]
        &&& self.completed == (self.drawing_steps < self.steps && self.state != GpuState::VBlank)
        &&& !self.completed ==> self.steps == budget
        &&& self.frames_presented == presented_in(self.reports@)
    }
}

/// The frames presented within the first `n` steps of a call that began
/// outside vertical blanking: none before the display enters vertical
/// blanking, one from then on.
proof fn lemma_presented_prefix(report: FrameReport, budget: u64, n: int)
    requires
        report.wf(budget),
        report.drawing_steps < report.steps,
        report.polls@[0] != GpuState::VBlank,
        edges_reported(report.polls@, report.reports@),
        0 <= n <= report.steps,
    ensures
        presented_in(report.reports@.take(n)) == (if n >= report.drawing_steps {
            1nat
        } else {
            0nat
        }),
    decreases n,
{
    let reports = report.reports@;
    if n > 0 {
        lemma_presented_prefix(report, budget, n - 1);
        assert(reports.take(n).drop_last() =~= reports.take(n - 1));
        assert(reports.take(n).last() == reports[n - 1]);
        assert(reports[n - 1].frame_presented() <==> report.polls@[n - 1] != GpuState::VBlank
            && report.polls@[n] == GpuState::VBlank);
    } else {
        assert(report.drawing_steps > 0);
    }
}

/// A call that began outside vertical blanking and saw the display enter
/// it, on a display controller that reports each entry into vertical
/// blanking, presented exactly one frame: in the last step before vertical
/// blanking, and in no other.
pub proof fn lemma_one_entry_one_frame(report: FrameReport, budget: u64)
    requires
        report.wf(budget),
        report.drawing_steps < report.steps,
        report.polls@[0] != GpuState::VBlank,
        edges_reported(report.polls@, report.reports@),
    ensures
        report.frames_presented == 1,
        report.drawing_steps >= 1,
        forall|i: int|
            0 <= i < report.steps ==> ((#[trigger] report.reports@[i]).frame_presented() <==> i
                == report.drawing_steps - 1),
{
    lemma_presented_prefix(report, budget, report.steps as int);
    assert(report.reports@.take(report.steps as int) =~= report.reports@);
    assert forall|i: int| 0 <= i < report.steps implies ((#[trigger] report.reports@[i]).frame_presented()
        <==> i == report.drawing_steps - 1) by {
        assert(report.reports@[i].frame_presented() <==> report.polls@[i] != GpuState::VBlank
            && report.polls@[i + 1] == GpuState::VBlank);
    }
}

/// A call that began inside vertical blanking, on a display controller that
/// reports each entry into vertical blanking, presented no frame: it only
/// ran until the display left vertical blanking.
pub proof fn lemma_no_entry_no_frame(report: FrameReport, budget: u64)
    requires
        report.wf(budget),
        report.polls@[0] == GpuState::VBlank,
        edges_reported(report.polls@, report.reports@),
    ensures
        report.drawing_steps == 0,
        report.frames_presented == 0,
{
    lemma_none_presented(report, budget, report.steps as int);
    assert(report.reports@.take(report.steps as int) =~= report.reports@);
}

/// No frame is presented within the first `n` steps of a call that began
/// inside vertical blanking.
proof fn lemma_none_presented(report: FrameReport, budget: u64, n: int)
    requires
        report.wf(budget),
        report.polls@[0] == GpuState::VBlank,
        edges_reported(report.polls@, report.reports@),
        0 <= n <= report.steps,
    ensures
        report.drawing_steps == 0,
        presented_in(report.reports@.take(n)) == 0,
    decreases n,
{
    let reports = report.reports@;
    if n > 0 {
        lemma_none_presented(report, budget, n - 1);
        assert(reports.take(n).drop_last() =~= reports.take(n - 1));
        assert(reports.take(n).last() == reports[n - 1]);
        assert(reports[n - 1].frame_presented() <==> report.polls@[n - 1] != GpuState::VBlank
            && report.polls@[n] == GpuState::VBlank);
    }
}

} // verus!
