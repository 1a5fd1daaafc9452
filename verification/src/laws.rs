//! What holds of every step and of every run of steps, proved from the
//! contracts of the scheduler and, where a law names it, from what the
//! hardware units promise.

use crate::breakpoints::Breakpoints;
use crate::devices::{
    Cpu, DmaController, EmulatorBackend, Gpu, GpuState, HaltState, InterruptController, IrqBitmask,
    SysBus, Timers,
};
use crate::frame::{edges_reported, lemma_no_entry_no_frame, lemma_one_entry_one_frame, FrameReport};
use crate::gba::{woken, GameBoyAdvance, Stages};
use crate::step::StepReport;
use vstd::prelude::*;

verus! {

impl<C, M, D, T, G, I, B> GameBoyAdvance<C, M, D, T, G, I, B> where
    C: Cpu<M>,
    D: DmaController<M>,
    T: Timers<M>,
    G: Gpu<M>,
    I: InterruptController,
    B: EmulatorBackend,
 {
    /// The core charges at least one cycle for an instruction and never
    /// turns its counter back on entering an interrupt.
    pub open spec fn core_charges() -> bool {
        &&& forall|after: C, before: C, bus_before: SysBus<M>, bus_after: SysBus<M>|
            #[trigger] after.executed_from(&before, &bus_before, &bus_after) ==> after.counter()
                > before.counter()
        &&& forall|after: C, before: C, bus_before: SysBus<M>, bus_after: SysBus<M>|
            #[trigger] after.entered_from(&before, &bus_before, &bus_after) ==> after.counter()
                >= before.counter()
    }

    /// The display controller reports entering vertical blanking in exactly
    /// the advances that take it from outside vertical blanking to inside.
    pub open spec fn display_reports_entries() -> bool {
        forall|
            after: G,
            before: G,
            cycles: usize,
            bus_before: SysBus<M>,
            bus_after: SysBus<M>,
            irqs_before: IrqBitmask,
            irqs_after: IrqBitmask,
            entered: Option<GpuState>,
        | #[trigger]
            after.advanced_from(
                &before,
                cycles,
                &bus_before,
                &bus_after,
                irqs_before,
                irqs_after,
                entered,
            ) ==> (entered == Some(GpuState::VBlank) <==> before.phase() != GpuState::VBlank
                && after.phase() == GpuState::VBlank)
    }

    /// Step monotonicity: a step never moves the CPU cycle counter
    /// backwards. The counter ends where the report says, and the core is
    /// left as it was when the DMA engine took the cycle or the core was not
    /// running.
    pub proof fn lemma_step_monotone(pre: Self, post: Self, report: StepReport)
        requires
            Self::stepped(pre, post, report),
        ensures
            report.start == pre.cpu.counter(),
            post.cpu.counter() == report.counter_after(),
            post.cpu.counter() >= pre.cpu.counter(),
            report.dma_took_cycle || report.halt != HaltState::Running ==> post.cpu == pre.cpu,
    {
        let stages = choose|stages: Stages<C, M, D>| #[trigger]
            Self::stepped_through(pre, post, report, stages);
        assert(Self::core_turn(pre, post, report, stages));
    }

    /// Step monotonicity, the other direction: on a core that charges for
    /// its instructions, the counter is unchanged exactly when the DMA
    /// engine took the cycle or the core was not running.
    pub proof fn lemma_counter_moves_exactly_when_executed(
        pre: Self,
        post: Self,
        report: StepReport,
    )
        requires
            Self::stepped(pre, post, report),
            Self::core_charges(),
        ensures
            post.cpu.counter() == pre.cpu.counter() <==> report.dma_took_cycle || report.halt
                != HaltState::Running,
            report.dma_took_cycle == pre.io.dmac.will_take(&pre.sysbus),
    {
        let stages = choose|stages: Stages<C, M, D>| #[trigger]
            Self::stepped_through(pre, post, report, stages);
        assert(Self::core_turn(pre, post, report, stages));
        assert(Self::arbitrated(pre, report.dma_took_cycle, report.interrupt_serviced, stages));
    }

    /// Step monotonicity over a run: the cycle counter in a later state of
    /// a run is never below the counter in an earlier one.
    pub proof fn lemma_counter_never_decreases(
        pre: Self,
        keys: u16,
        states: Seq<Self>,
        reports: Seq<StepReport>,
        i: int,
        j: int,
    )
        requires
            Self::ran(pre, keys, states, reports),
            0 <= i <= j < states.len(),
        ensures
            pre.cpu.counter() <= states[i].cpu.counter() <= states[j].cpu.counter(),
        decreases j,
    {
        if j > 0 {
            assert(Self::stepped(states[j - 1], states[j - 1 + 1], reports[j - 1]));
            Self::lemma_step_monotone(states[j - 1], states[j], reports[j - 1]);
            if i < j {
                Self::lemma_counter_never_decreases(pre, keys, states, reports, i, j - 1);
            } else {
                Self::lemma_counter_never_decreases(pre, keys, states, reports, 0, j - 1);
            }
        }
    }

    /// DMA preemption: in a step whose cycle the DMA engine takes, the CPU
    /// core is left as it was, with its counter and its next address; no
    /// interrupt is entered, the halt state is not written, and timers and
    /// display advance by zero cycles.
    pub proof fn lemma_dma_preempts(
        pre: Self,
        post: Self,
        report: StepReport,
        stages: Stages<C, M, D>,
    )
        requires
            Self::stepped_through(pre, post, report, stages),
            pre.io.dmac.will_take(&pre.sysbus),
        ensures
            report.dma_took_cycle,
            !report.interrupt_serviced,
            !report.cpu_executed(),
            post.cpu == pre.cpu,
            post.cpu.counter() == pre.cpu.counter(),
            post.cpu.next_pc() == pre.cpu.next_pc(),
            stages.bus_cpu == stages.bus_dma,
            report.cycles == 0,
            post.io.timers.advanced_from(
                &pre.io.timers,
                0,
                &stages.bus_dma,
                &stages.bus_timers,
                stages.irqs_dma,
                stages.irqs_timers,
            ),
            post.io.gpu.advanced_from(
                &pre.io.gpu,
                0,
                &stages.bus_timers,
                &post.sysbus,
                stages.irqs_timers,
                report.requested,
                report.transition,
            ),
    {
    }

    /// Interrupt before execute, and wake in the same step: in a step in
    /// which the DMA engine declines and an interrupt is pending, the CPU
    /// core first enters the interrupt vector, the halt state is then set to
    /// running, and the core executes its one instruction from there, in
    /// this step, whatever the halt state was. The elapsed cycles are those
    /// of the core, not the idle tick.
    pub proof fn lemma_interrupt_enters_before_instruction(
        pre: Self,
        post: Self,
        report: StepReport,
        stages: Stages<C, M, D>,
    )
        requires
            Self::stepped_through(pre, post, report, stages),
            !pre.io.dmac.will_take(&pre.sysbus),
            pre.io.intc.pending(),
        ensures
            report.interrupt_serviced,
            report.cpu_executed(),
            stages.cpu_entered.entered_from(&pre.cpu, &stages.bus_dma, &stages.bus_entered),
            woken(stages.bus_entered).io.haltcnt == HaltState::Running,
            post.cpu.executed_from(
                &stages.cpu_entered,
                &woken(stages.bus_entered),
                &stages.bus_cpu,
            ),
            report.cycles == post.cpu.counter() - pre.cpu.counter(),
    {
    }

    /// Halt and wake: the scheduler writes the halt state in exactly the
    /// steps that service an interrupt. In every other step the bus reaches
    /// the core's turn as the DMA engine left it; a halted core is then left
    /// alone and one cycle passes.
    pub proof fn lemma_wake_only_with_interrupt(
        pre: Self,
        post: Self,
        report: StepReport,
        stages: Stages<C, M, D>,
    )
        requires
            Self::stepped_through(pre, post, report, stages),
            !pre.io.intc.pending() || pre.io.dmac.will_take(&pre.sysbus),
        ensures
            !report.interrupt_serviced,
            stages.cpu_entered == pre.cpu,
            Self::bus_ready(report.interrupt_serviced, stages) == stages.bus_dma,
            report.halt == stages.bus_dma.io.haltcnt,
            !report.dma_took_cycle && report.halt != HaltState::Running ==> report.cycles == 1
                && post.cpu == pre.cpu && stages.bus_cpu == stages.bus_dma,
            !report.dma_took_cycle && report.halt == HaltState::Running ==> post.cpu.executed_from(
                &pre.cpu,
                &stages.bus_dma,
                &stages.bus_cpu,
            ),
    {
    }

    /// What follows a display edge: on entering vertical blanking the
    /// backend takes the display's pixels and the DMA engine learns of the
    /// edge; on entering horizontal blanking the DMA engine learns of it and
    /// the backend is left alone; otherwise neither is told. The interrupt
    /// controller takes the requests that the DMA engine, the timers and the
    /// display filled in turn, starting from none.
    pub proof fn lemma_edges_and_requests(
        pre: Self,
        post: Self,
        report: StepReport,
        stages: Stages<C, M, D>,
    )
        requires
            Self::stepped_through(pre, post, report, stages),
        ensures
            report.transition == Some(GpuState::VBlank) ==> post.backend.took_frame(
                &pre.backend,
                post.io.gpu.pixels(),
            ) && post.io.dmac.vblank_from(&stages.dmac),
            report.transition == Some(GpuState::HBlank) ==> post.backend == pre.backend
                && post.io.dmac.hblank_from(&stages.dmac),
            report.transition != Some(GpuState::VBlank) && report.transition != Some(
                GpuState::HBlank,
            ) ==> post.backend == pre.backend && post.io.dmac == stages.dmac,
            stages.dmac.worked_from(
                &pre.io.dmac,
                &pre.sysbus,
                &stages.bus_dma,
                IrqBitmask(0),
                stages.irqs_dma,
            ),
            post.io.intc.merged_from(&pre.io.intc, report.requested),
            post.breakpoints == pre.breakpoints,
    {
    }

    /// Breakpoints do not steer the machine: a step runs the same way
    /// whatever the breakpoint set holds, and leaves the set as it was.
    pub proof fn lemma_breakpoints_do_not_steer(
        pre: Self,
        post: Self,
        report: StepReport,
        stages: Stages<C, M, D>,
        set: Breakpoints,
    )
        requires
            Self::stepped_through(pre, post, report, stages),
        ensures
            post.breakpoints == pre.breakpoints,
            Self::stepped_through(
                pre.with_breakpoints(set),
                post.with_breakpoints(set),
                report,
                stages,
            ),
    {
    }

    /// Under a DMA engine that takes every cycle of a run, time stands
    /// still: every step hands zero cycles to timers and display, and the
    /// CPU core stays as it was before the run.
    pub proof fn lemma_dma_freezes_time(
        pre: Self,
        keys: u16,
        states: Seq<Self>,
        reports: Seq<StepReport>,
        i: int,
    )
        requires
            Self::ran(pre, keys, states, reports),
            forall|k: int|
                0 <= k < reports.len() ==> (#[trigger] states[k]).io.dmac.will_take(
                    &states[k].sysbus,
                ),
            0 <= i < reports.len(),
        ensures
            reports[i].dma_took_cycle,
            reports[i].cycles == 0,
            states[i].cpu == pre.cpu,
            states[i + 1].cpu == pre.cpu,
        decreases i,
    {
        if i > 0 {
            Self::lemma_dma_freezes_time(pre, keys, states, reports, i - 1);
            assert(states[i - 1 + 1] == states[i]);
        }
        assert(states[i].io.dmac.will_take(&states[i].sysbus));
        assert(Self::stepped(states[i], states[i + 1], reports[i]));
        let (before, after) = (states[i], states[i + 1]);
        let stages = choose|stages: Stages<C, M, D>| #[trigger]
            Self::stepped_through(before, after, reports[i], stages);
        Self::lemma_dma_preempts(before, after, reports[i], stages);
    }

    /// On a display controller that reports each entry into vertical
    /// blanking, the steps of a call presented a frame exactly where the
    /// polled display went from outside vertical blanking to inside.
    pub proof fn lemma_edges_reported(pre: Self, post: Self, report: FrameReport, states: Seq<Self>)
        requires
            Self::framed(pre, post, report, states),
            Self::display_reports_entries(),
        ensures
            edges_reported(report.polls@, report.reports@),
    {
        let reports = report.reports@;
        assert forall|i: int| 0 <= i < reports.len() implies ((#[trigger] reports[i]).frame_presented()
            <==> report.polls@[i] != GpuState::VBlank && report.polls@[i + 1]
            == GpuState::VBlank) by {
            assert(Self::stepped(states[i], states[i + 1], reports[i]));
            let (before, after) = (states[i], states[i + 1]);
            let stages = choose|stages: Stages<C, M, D>| #[trigger]
                Self::stepped_through(before, after, reports[i], stages);
            assert(Self::peripherals_advanced(before, after, reports[i], stages));
            assert(report.polls@[i] == states[i].io.gpu.phase());
            assert(report.polls@[i + 1] == states[i + 1].io.gpu.phase());
        }
    }

    /// Frame boundary: a completed call returns with the display in the
    /// first state outside vertical blanking that it reached after it had
    /// been in vertical blanking, and took at least one step inside.
    pub proof fn lemma_frame_ends_at_first_exit(
        pre: Self,
        post: Self,
        report: FrameReport,
        budget: u64,
        states: Seq<Self>,
        i: int,
    )
        requires
            report.wf(budget),
            Self::framed(pre, post, report, states),
            report.completed,
            report.drawing_steps <= i <= report.steps,
            states[i].io.gpu.phase() != GpuState::VBlank,
        ensures
            i == report.steps,
            report.drawing_steps < report.steps,
            states[report.drawing_steps as int].io.gpu.phase() == GpuState::VBlank,
            states[report.steps - 1].io.gpu.phase() == GpuState::VBlank,
            post.io.gpu.phase() == report.state,
            post.io.gpu.phase() != GpuState::VBlank,
    {
        assert(report.polls@[i] == states[i].io.gpu.phase());
        assert(report.polls@[report.drawing_steps as int] == states[report.drawing_steps as int].io.gpu.phase());
        assert(report.polls@[report.steps - 1] == states[report.steps - 1].io.gpu.phase());
        assert(report.polls@[report.steps as int] == states[report.steps as int].io.gpu.phase());
    }

    /// One frame per call: a completed call that began with the display
    /// outside vertical blanking, on a display controller that reports each
    /// entry into vertical blanking, handed exactly one frame to the
    /// backend. It did so in the step that entered vertical blanking; every
    /// other step left the backend as it was.
    pub proof fn lemma_one_frame_per_call(
        pre: Self,
        post: Self,
        report: FrameReport,
        budget: u64,
        states: Seq<Self>,
    )
        requires
            report.wf(budget),
            Self::framed(pre, post, report, states),
            report.completed,
            pre.io.gpu.phase() != GpuState::VBlank,
            Self::display_reports_entries(),
        ensures
            report.frames_presented == 1,
            report.drawing_steps >= 1,
            states[report.drawing_steps as int].backend.took_frame(
                &states[report.drawing_steps - 1].backend,
                states[report.drawing_steps as int].io.gpu.pixels(),
            ),
            forall|i: int|
                0 <= i < report.steps && i != report.drawing_steps - 1 ==> (#[trigger] states[i
                    + 1]).backend == states[i].backend,
            states[0].backend == pre.backend,
    {
        Self::lemma_edges_reported(pre, post, report, states);
        assert(report.polls@[0] == states[0].io.gpu.phase());
        lemma_one_entry_one_frame(report, budget);
        let reports = report.reports@;
        assert forall|i: int| 0 <= i < report.steps implies (if i == report.drawing_steps - 1 {
            states[i + 1].backend.took_frame(&states[i].backend, states[i + 1].io.gpu.pixels())
        } else {
            (#[trigger] states[i + 1]).backend == states[i].backend
        }) by {
            assert(Self::stepped(states[i], states[i + 1], reports[i]));
            let (before, after) = (states[i], states[i + 1]);
            let stages = choose|stages: Stages<C, M, D>| #[trigger]
                Self::stepped_through(before, after, reports[i], stages);
            assert(Self::peripherals_advanced(before, after, reports[i], stages));
            assert(reports[i].frame_presented() <==> i == report.drawing_steps - 1);
        }
        let k = report.drawing_steps - 1;
        assert(states[k + 1].backend.took_frame(&states[k].backend, states[k + 1].io.gpu.pixels()));
    }

    /// A call that began with the display inside vertical blanking, on a
    /// display controller that reports each entry into vertical blanking,
    /// only ran until the display left vertical blanking: it took no step
    /// outside and handed no frame to the backend.
    pub proof fn lemma_frame_begun_in_vblank_only_drains(
        pre: Self,
        post: Self,
        report: FrameReport,
        budget: u64,
        states: Seq<Self>,
    )
        requires
            report.wf(budget),
            Self::framed(pre, post, report, states),
            pre.io.gpu.phase() == GpuState::VBlank,
            Self::display_reports_entries(),
        ensures
            report.drawing_steps == 0,
            report.frames_presented == 0,
    {
        Self::lemma_edges_reported(pre, post, report, states);
        assert(report.polls@[0] == states[0].io.gpu.phase());
        lemma_no_entry_no_frame(report, budget);
    }
}

} // verus!
