//! The machine: the CPU core, the bus, the IO devices and the backend, and
//! the scheduler that steps them.

use crate::breakpoints::{added, added_index, hit, Breakpoints};
use crate::devices::{
    Cpu, DmaController, EmulatorBackend, Gpu, GpuState, HaltState, InterruptController, IoDevices,
    IoRegisters, IrqBitmask, SysBus, Timers, KEYINPUT_ALL_RELEASED,
};
use crate::frame::{presented_in, FrameReport};
use crate::step::{
    arbitrate, classify_edge, edge_of, elapsed_cycles, Edge, StepError, StepReport, Turn,
};
use vstd::prelude::*;

verus! {

/// The whole machine.
pub struct GameBoyAdvance<C, M, D, T, G, I, B> {
    pub backend: B,
    pub cpu: C,
    pub sysbus: SysBus<M>,
    pub io: IoDevices<D, T, G, I>,
    pub breakpoints: Breakpoints,
}

/// What a step passes through between its first call and its last.
pub struct Stages<C, M, D> {
    /// The DMA engine after its attempt.
    pub dmac: D,
    /// The bus after the DMA engine's attempt.
    pub bus_dma: SysBus<M>,
    /// The interrupt requests after the DMA engine's attempt.
    pub irqs_dma: IrqBitmask,
    /// The CPU core after the interrupt entry, if there was one.
    pub cpu_entered: C,
    /// The bus after the interrupt entry, if there was one.
    pub bus_entered: SysBus<M>,
    /// The bus after the CPU core's turn.
    pub bus_cpu: SysBus<M>,
    /// The bus after the timers advanced.
    pub bus_timers: SysBus<M>,
    /// The interrupt requests after the timers advanced.
    pub irqs_timers: IrqBitmask,
}

/// `bus` with the halt state set to running.
pub open spec fn woken<M>(bus: SysBus<M>) -> SysBus<M> {
    SysBus {
        io: IoRegisters { keyinput: bus.io.keyinput, haltcnt: HaltState::Running },
        memory: bus.memory,
    }
}

impl<C, M, D, T, G, I, B> GameBoyAdvance<C, M, D, T, G, I, B> where
    C: Cpu<M>,
    D: DmaController<M>,
    T: Timers<M>,
    G: Gpu<M>,
    I: InterruptController,
    B: EmulatorBackend,
 {
    /// Assembles a machine. The core starts running, with every key
    /// released and no breakpoint set.
    pub fn new(cpu: C, memory: M, io: IoDevices<D, T, G, I>, backend: B) -> (gba: Self)
        ensures
            gba.cpu == cpu,
            gba.sysbus.memory == memory,
            gba.sysbus.io.haltcnt == HaltState::Running,
            gba.sysbus.io.keyinput == KEYINPUT_ALL_RELEASED,
            gba.io == io,
            gba.backend == backend,
            gba.breakpoints@ == Seq::<u32>::empty(),
            gba.breakpoints.wf(),
    {
        GameBoyAdvance {
            backend,
            cpu,
            sysbus: SysBus {
                io: IoRegisters { keyinput: KEYINPUT_ALL_RELEASED, haltcnt: HaltState::Running },
                memory,
            },
            io,
            breakpoints: Breakpoints::new(),
        }
    }

    /// `after` is this machine with `keys` in the key-state register and
    /// nothing else changed.
    pub open spec fn untouched_but_keys(&self, after: Self, keys: u16) -> bool {
        &&& after.sysbus.io.keyinput == keys
        &&& after.sysbus.io.haltcnt == self.sysbus.io.haltcnt
        &&& after.sysbus.memory == self.sysbus.memory
        &&& after.cpu == self.cpu
        &&& after.io == self.io
        &&& after.backend == self.backend
        &&& after.breakpoints == self.breakpoints
    }

    /// Writes `keys` to the key-state register.
    pub fn set_key_state(&mut self, keys: u16)
        ensures
            final(self).sysbus.io.keyinput == keys,
            final(self).sysbus.io.haltcnt == old(self).sysbus.io.haltcnt,
            final(self).sysbus.memory == old(self).sysbus.memory,
            final(self).cpu == old(self).cpu,
            final(self).io == old(self).io,
            final(self).backend == old(self).backend,
            final(self).breakpoints == old(self).breakpoints,
    {
        self.sysbus.io.keyinput = keys;
    }

    /// Refreshes the key-state register from the backend's current keys and
    /// returns the keys that were polled. Nothing but that register changes.
    pub fn update_key_state(&mut self) -> (keys: u16)
        ensures
            keys == old(self).backend.keys(),
            final(self).sysbus.io.keyinput == keys,
            final(self).sysbus.io.haltcnt == old(self).sysbus.io.haltcnt,
            final(self).sysbus.memory == old(self).sysbus.memory,
            final(self).cpu == old(self).cpu,
            final(self).io == old(self).io,
            final(self).backend == old(self).backend,
            final(self).breakpoints == old(self).breakpoints,
    {
        let keys = self.backend.get_key_state();
        self.set_key_state(keys);
        keys
    }

    /// Adds a breakpoint at `addr`. Returns its index, or `None` when there
    /// is one at that address already; the set is then left as it was.
    pub fn add_breakpoint(&mut self, addr: u32) -> (index: Option<usize>)
        ensures
            final(self).breakpoints@ == added(old(self).breakpoints@, addr),
            index == added_index(old(self).breakpoints@, addr),
            old(self).breakpoints.wf() ==> final(self).breakpoints.wf(),
            final(self).cpu == old(self).cpu,
            final(self).sysbus == old(self).sysbus,
            final(self).io == old(self).io,
            final(self).backend == old(self).backend,
    {
        self.breakpoints.add(addr)
    }

    /// Returns the address of the next instruction if there is a breakpoint
    /// on it. The machine does not stop by itself: the caller polls this
    /// between steps.
    pub fn check_breakpoint(&self) -> (found: Option<u32>)
        ensures
            found == hit(self.breakpoints@, self.cpu.next_pc()),
    {
        let next_pc = self.cpu.get_next_pc();
        self.breakpoints.check(next_pc)
    }

    /// The bus that the CPU core finds at its turn: woken if an interrupt
    /// was serviced, as the DMA engine left it otherwise.
    pub open spec fn bus_ready(interrupt_serviced: bool, stages: Stages<C, M, D>) -> SysBus<M> {
        if interrupt_serviced {
            woken(stages.bus_entered)
        } else {
            stages.bus_dma
        }
    }

    /// The first part of a step from `pre`: the DMA engine attempts a
    /// transfer on an empty set of interrupt requests; if it declines and an
    /// interrupt is pending, the CPU core enters the interrupt vector.
    pub open spec fn arbitrated(
        pre: Self,
        dma_took_cycle: bool,
        interrupt_serviced: bool,
        stages: Stages<C, M, D>,
    ) -> bool {
        &&& dma_took_cycle == pre.io.dmac.will_take(&pre.sysbus)
        &&& stages.dmac.worked_from(
            &pre.io.dmac,
            &pre.sysbus,
            &stages.bus_dma,
            IrqBitmask(0),
            stages.irqs_dma,
        )
        &&& interrupt_serviced == (!dma_took_cycle && pre.io.intc.pending())
        &&& if interrupt_serviced {
            stages.cpu_entered.entered_from(&pre.cpu, &stages.bus_dma, &stages.bus_entered)
        } else {
            stages.cpu_entered == pre.cpu && stages.bus_entered == stages.bus_dma
        }
    }

    /// The CPU core's turn in a step that `report` describes: it executes
    /// one instruction on the bus it finds, and the cycles that its counter
    /// moved are the elapsed cycles; or it is left alone, and the elapsed
    /// cycles are none under a DMA transfer and one while it is halted.
    pub open spec fn core_turn(
        pre: Self,
        post: Self,
        report: StepReport,
        stages: Stages<C, M, D>,
    ) -> bool {
        let ready = Self::bus_ready(report.interrupt_serviced, stages);
        &&& report.start == pre.cpu.counter()
        &&& report.halt == ready.io.haltcnt
        &&& if report.cpu_executed() {
            &&& post.cpu.executed_from(&stages.cpu_entered, &ready, &stages.bus_cpu)
            &&& post.cpu.counter() >= report.start
            &&& report.cycles == post.cpu.counter() - report.start
        } else {
            &&& post.cpu == pre.cpu
            &&& stages.bus_cpu == ready
            &&& report.cycles == if report.dma_took_cycle {
                0usize
            } else {
                1usize
            }
        }
    }

    /// The last part of a step: timers and display advance by the elapsed
    /// cycles and add their interrupt requests, a display edge is passed on,
    /// and the requests of the step go to the interrupt controller.
    pub open spec fn peripherals_advanced(
        pre: Self,
        post: Self,
        report: StepReport,
        stages: Stages<C, M, D>,
    ) -> bool {
        &&& post.io.timers.advanced_from(
            &pre.io.timers,
            report.cycles,
            &stages.bus_cpu,
            &stages.bus_timers,
            stages.irqs_dma,
            stages.irqs_timers,
        )
        &&& post.io.gpu.advanced_from(
            &pre.io.gpu,
            report.cycles,
            &stages.bus_timers,
            &post.sysbus,
            stages.irqs_timers,
            report.requested,
            report.transition,
        )
        &&& match edge_of(report.transition) {
            Edge::Frame => {
                &&& post.backend.took_frame(&pre.backend, post.io.gpu.pixels())
                &&& post.io.dmac.vblank_from(&stages.dmac)
            },
            Edge::Scanline => {
                &&& post.backend == pre.backend
                &&& post.io.dmac.hblank_from(&stages.dmac)
            },
            Edge::Quiet => {
                &&& post.backend == pre.backend
                &&& post.io.dmac == stages.dmac
            },
        }
        &&& post.io.intc.merged_from(&pre.io.intc, report.requested)
        &&& post.breakpoints == pre.breakpoints
    }

    /// One step took the machine from `pre` to `post` through `stages`, and
    /// `report` describes it.
    pub open spec fn stepped_through(
        pre: Self,
        post: Self,
        report: StepReport,
        stages: Stages<C, M, D>,
    ) -> bool {
        &&& Self::arbitrated(pre, report.dma_took_cycle, report.interrupt_serviced, stages)
        &&& Self::core_turn(pre, post, report, stages)
        &&& Self::peripherals_advanced(pre, post, report, stages)
    }

    /// One step took the machine from `pre` to `post`, and `report`
    /// describes it.
    pub open spec fn stepped(pre: Self, post: Self, report: StepReport) -> bool {
        exists|stages: Stages<C, M, D>| Self::stepped_through(pre, post, report, stages)
    }

    /// A step from `pre` stopped with `error` at the CPU core's instruction
    /// and left the machine as `post`: the DMA engine had declined, the core
    /// was running or woken, and no peripheral had advanced.
    pub open spec fn failed_through(
        pre: Self,
        post: Self,
        error: StepError<C::Fault>,
        interrupt_serviced: bool,
        stages: Stages<C, M, D>,
    ) -> bool {
        let ready = Self::bus_ready(interrupt_serviced, stages);
        &&& Self::arbitrated(pre, false, interrupt_serviced, stages)
        &&& ready.io.haltcnt == HaltState::Running
        &&& match error {
            StepError::Fault(fault) => post.cpu.faulted_from(
                &stages.cpu_entered,
                &ready,
                &post.sysbus,
                &fault,
            ),
            StepError::CounterRegressed { before, after } => {
                &&& post.cpu.executed_from(&stages.cpu_entered, &ready, &post.sysbus)
                &&& before == pre.cpu.counter()
                &&& after == post.cpu.counter()
                &&& after < before
            },
        }
        &&& post.io.dmac == stages.dmac
        &&& post.io.timers == pre.io.timers
        &&& post.io.gpu == pre.io.gpu
        &&& post.io.intc == pre.io.intc
        &&& post.backend == pre.backend
        &&& post.breakpoints == pre.breakpoints
    }

    /// A step from `pre` stopped with `error` and left the machine as
    /// `post`.
    pub open spec fn failed(pre: Self, post: Self, error: StepError<C::Fault>) -> bool {
        exists|interrupt_serviced: bool, stages: Stages<C, M, D>|
            Self::failed_through(pre, post, error, interrupt_serviced, stages)
    }

    /// Advances the machine by the smallest indivisible unit of work: the
    /// DMA engine before the CPU core, a pending interrupt before the
    /// instruction, then timers and display by the cycles that elapsed. It
    /// fails only where the core's instruction does.
    pub fn step_new(&mut self) -> (result: Result<StepReport, StepError<C::Fault>>)
        ensures
            match result {
                Ok(report) => report.wf() && Self::stepped(*old(self), *final(self), report),
                Err(error) => Self::failed(*old(self), *final(self), error),
            },
    {
        let ghost pre = *self;
        let mut irqs = IrqBitmask(0);
        let start = self.cpu.cycles();
        let dma_took_cycle = self.io.dmac.perform_work(&mut self.sysbus, &mut irqs);
        let ghost mut stages = Stages {
            dmac: self.io.dmac,
            bus_dma: self.sysbus,
            irqs_dma: irqs,
            cpu_entered: self.cpu,
            bus_entered: self.sysbus,
            bus_cpu: self.sysbus,
            bus_timers: self.sysbus,
            irqs_timers: irqs,
        };
        let pending = !dma_took_cycle && self.io.intc.irq_pending();
        let turn = arbitrate(dma_took_cycle, pending, self.sysbus.io.haltcnt);
        let interrupt_serviced = turn == Turn::Interrupt;
        if interrupt_serviced {
            self.cpu.irq(&mut self.sysbus);
            proof {
                stages.cpu_entered = self.cpu;
                stages.bus_entered = self.sysbus;
            }
            self.sysbus.io.haltcnt = HaltState::Running;
        }
        let halt = self.sysbus.io.haltcnt;
        let ghost ready = self.sysbus;
        assert(ready == Self::bus_ready(interrupt_serviced, stages));
        let cycles: usize = match turn {
            Turn::Dma => 0,
            Turn::Idle => 1,
            Turn::Interrupt | Turn::Instruction => {
                match self.cpu.step(&mut self.sysbus) {
                    Ok(()) => {},
                    Err(fault) => {
                        assert(Self::failed_through(
                            pre,
                            *self,
                            StepError::Fault(fault),
                            interrupt_serviced,
                            stages,
                        ));
                        return Err(StepError::Fault(fault));
                    },
                }
                let now = self.cpu.cycles();
                match elapsed_cycles(start, now) {
                    Ok(elapsed) => elapsed,
                    Err(error) => {
                        assert(Self::failed_through(pre, *self, error, interrupt_serviced, stages));
                        return Err(error);
                    },
                }
            },
        };
        proof {
            stages.bus_cpu = self.sysbus;
        }
        self.io.timers.step(cycles, &mut self.sysbus, &mut irqs);
        proof {
            stages.bus_timers = self.sysbus;
            stages.irqs_timers = irqs;
        }
        let transition = self.io.gpu.step(cycles, &mut self.sysbus, &mut irqs);
        match classify_edge(transition) {
            Edge::Frame => {
                self.backend.render(self.io.gpu.get_framebuffer());
                self.io.dmac.notify_vblank();
            },
            Edge::Scanline => {
                self.io.dmac.notify_hblank();
            },
            Edge::Quiet => {},
        }
        self.io.intc.request_irqs(irqs);
        let report = StepReport {
            dma_took_cycle,
            interrupt_serviced,
            halt,
            start,
            cycles,
            transition,
            requested: irqs,
        };
        assert(Self::arbitrated(pre, dma_took_cycle, interrupt_serviced, stages));
        assert(Self::core_turn(pre, *self, report, stages));
        assert(Self::peripherals_advanced(pre, *self, report, stages));
        assert(Self::stepped_through(pre, *self, report, stages));
        Ok(report)
    }

    /// This machine with `set` as its breakpoints.
    pub open spec fn with_breakpoints(self, set: Breakpoints) -> Self {
        GameBoyAdvance {
            backend: self.backend,
            cpu: self.cpu,
            sysbus: self.sysbus,
            io: self.io,
            breakpoints: set,
        }
    }

    /// A run of steps: the machine polled the keys `keys`, which took it to
    /// `states[0]`, and each step took it from one state to the next, the
    /// step at position `i` being the one that `reports[i]` describes.
    pub open spec fn ran(
        pre: Self,
        keys: u16,
        states: Seq<Self>,
        reports: Seq<StepReport>,
    ) -> bool {
        &&& keys == pre.backend.keys()
        &&& states.len() == reports.len() + 1
        &&& pre.untouched_but_keys(states[0], keys)
        &&& forall|i: int|
            0 <= i < reports.len() ==> Self::stepped(states[i], states[i + 1], #[trigger] reports[i])
    }

    /// The call that `report` describes took the machine from `pre` to
    /// `post` through `states`, and polled the display in each of them.
    pub open spec fn framed(pre: Self, post: Self, report: FrameReport, states: Seq<Self>) -> bool {
        &&& Self::ran(pre, report.keys, states, report.reports@)
        &&& states.last() == post
        &&& forall|i: int|
            0 <= i < states.len() ==> report.polls@[i] == (#[trigger] states[i]).io.gpu.phase()
    }

    /// Takes one step, polls the display, and enters both into `progress`.
    fn advance(&mut self, progress: &mut FrameReport) -> (result: Result<(), StepError<C::Fault>>)
        requires
            old(progress).frames_presented <= old(progress).steps < u64::MAX,
        ensures
            match result {
                Ok(_) => {
                    let report = final(progress).reports@.last();
                    &&& report.wf()
                    &&& Self::stepped(*old(self), *final(self), report)
                    &&& final(progress).state == final(self).io.gpu.phase()
                    &&& final(progress).steps == old(progress).steps + 1
                    &&& final(progress).reports@ == old(progress).reports@.push(report)
                    &&& final(progress).polls@ == old(progress).polls@.push(final(progress).state)
                    &&& final(progress).frames_presented <= final(progress).steps
                    &&& old(progress).frames_presented == presented_in(old(progress).reports@)
                        ==> final(progress).frames_presented == presented_in(
                        final(progress).reports@,
                    )
                    &&& final(progress).keys == old(progress).keys
                    &&& final(progress).drawing_steps == old(progress).drawing_steps
                    &&& final(progress).completed == old(progress).completed
                },
                Err(error) => {
                    &&& Self::failed(*old(self), *final(self), error)
                    &&& *final(progress) == *old(progress)
                },
            },
    {
        let report = self.step_new()?;
        if report.presented() {
            progress.frames_presented += 1;
        }
        progress.steps += 1;
        progress.state = self.io.gpu.state();
        let ghost reports = progress.reports@.push(report);
        let ghost polls = progress.polls@.push(progress.state);
        assert(reports.drop_last() =~= progress.reports@);
        progress.reports = Ghost(reports);
        progress.polls = Ghost(polls);
        Ok(())
    }

    /// Polls the keys, then runs steps until one full display refresh has
    /// been produced: first while the display is outside vertical blanking,
    /// then while it is inside. Stops early once `budget` steps are spent, or
    /// at the step that fails. Only a step can fail, so a call that may take
    /// no step succeeds.
    pub fn frame(&mut self, budget: u64) -> (result: Result<FrameReport, StepError<C::Fault>>)
        ensures
            budget == 0 ==> result is Ok,
            match result {
                Ok(report) => {
                    &&& report.wf(budget)
                    &&& exists|states: Seq<Self>|
                        Self::framed(*old(self), *final(self), report, states)
                },
                Err(error) => exists|states: Seq<Self>, reports: Seq<StepReport>|
                    {
                        &&& #[trigger] Self::ran(
                            *old(self),
                            old(self).backend.keys(),
                            states,
                            reports,
                        )
                        &&& reports.len() < budget
                        &&& Self::failed(states.last(), *final(self), error)
                    },
            },
    {
        let ghost pre = *self;
        let keys = self.update_key_state();
        let state = self.io.gpu.state();
        let ghost first_poll = seq![state];
        let ghost no_reports = Seq::<StepReport>::empty();
        let mut report = FrameReport {
            completed: false,
            drawing_steps: 0,
            steps: 0,
            frames_presented: 0,
            state,
            keys,
            polls: Ghost(first_poll),
            reports: Ghost(no_reports),
        };
        let ghost mut states: Seq<Self> = seq![*self];
        while report.state != GpuState::VBlank && report.steps < budget
            invariant
                pre == *old(self),
                Self::framed(pre, *self, report, states),
                report.progressed(budget),
                report.drawing_steps == 0,
                forall|i: int| 0 <= i < report.steps ==> #[trigger] report.polls@[i] != GpuState::VBlank,
            decreases budget - report.steps,
        {
            match self.advance(&mut report) {
                Ok(()) => {},
                Err(error) => {
                    return Err(error);
                },
            }
            proof {
                states = states.push(*self);
            }
        }
        report.drawing_steps = report.steps;
        while report.state == GpuState::VBlank && report.steps < budget
            invariant
                pre == *old(self),
                Self::framed(pre, *self, report, states),
                report.progressed(budget),
                report.drawing_steps <= report.steps,
                forall|i: int|
                    0 <= i < report.drawing_steps ==> #[trigger] report.polls@[i] != GpuState::VBlank,
                forall|i: int|
                    report.drawing_steps <= i < report.steps ==> #[trigger] report.polls@[i]
                        == GpuState::VBlank,
                report.drawing_steps < budget ==> report.polls@[report.drawing_steps as int]
                    == GpuState::VBlank,
            decreases budget - report.steps,
        {
            match self.advance(&mut report) {
                Ok(()) => {},
                Err(error) => {
                    return Err(error);
                },
            }
            proof {
                states = states.push(*self);
            }
        }
        report.completed = report.drawing_steps < report.steps && report.state != GpuState::VBlank;
        assert(Self::framed(pre, *self, report, states));
        Ok(report)
    }
}

} // verus!
