//! The decisions of one step of the machine, as functions of what the
//! hardware units answered, and the report of what a step did.

use crate::devices::{GpuState, HaltState, IrqBitmask};
use vstd::prelude::*;

verus! {

/// Who gets the cycle of a step, in falling priority.
#[derive(Clone, Copy, Debug, PartialEq, Eq, Structural)]
pub enum Turn {
    /// The DMA engine performed a transfer: the CPU core is frozen.
    Dma,
    /// An interrupt is pending: the core enters its vector, is woken, and
    /// executes one instruction.
    Interrupt,
    /// The core is running: it executes one instruction.
    Instruction,
    /// The core is halted: nobody acts, and one cycle passes.
    Idle,
}

/// What follows a display transition.
#[derive(Clone, Copy, Debug, PartialEq, Eq, Structural)]
pub enum Edge {
    /// Vertical blanking was entered: the backend gets the completed frame
    /// and the DMA engine learns of the edge.
    Frame,
    /// Horizontal blanking was entered: the DMA engine learns of the edge.
    Scanline,
    /// Nobody is told.
    Quiet,
}

/// Why a step stopped before it was complete.
pub enum StepError<F> {
    /// The CPU core could not execute its instruction.
    Fault(F),
    /// The CPU cycle counter went backwards across the instruction.
    CounterRegressed { before: usize, after: usize },
}

/// Who gets the cycle, given whether the DMA engine took it, whether an
/// interrupt is pending and what the halt state is.
pub open spec fn turn_of(dma_took_cycle: bool, pending: bool, halt: HaltState) -> Turn {
    if dma_took_cycle {
        Turn::Dma
    } else if pending {
        Turn::Interrupt
    } else if halt == HaltState::Running {
        Turn::Instruction
    } else {
        Turn::Idle
    }
}

/// What follows the display transition `transition`.
pub open spec fn edge_of(transition: Option<GpuState>) -> Edge {
    match transition {
        Some(GpuState::VBlank) => Edge::Frame,
        Some(GpuState::HBlank) => Edge::Scanline,
        _ => Edge::Quiet,
    }
}

/// Decides who gets the cycle: the DMA engine before the CPU core, a
/// pending interrupt before the halt state.
pub fn arbitrate(dma_took_cycle: bool, pending: bool, halt: HaltState) -> (turn: Turn)
    ensures
        turn == turn_of(dma_took_cycle, pending, halt),
{
    if dma_took_cycle {
        Turn::Dma
    } else if pending {
        Turn::Interrupt
    } else if halt == HaltState::Running {
        Turn::Instruction
    } else {
        Turn::Idle
    }
}

/// The cycles that passed while the counter went from `start` to `now`. A
/// counter that went backwards is an error.
pub fn elapsed_cycles<F>(start: usize, now: usize) -> (elapsed: Result<usize, StepError<F>>)
    ensures
        now >= start ==> elapsed == Ok::<usize, StepError<F>>((now - start) as usize),
        now < start ==> elapsed == Err::<usize, StepError<F>>(
            StepError::CounterRegressed { before: start, after: now },
        ),
{
    if now < start {
        Err(StepError::CounterRegressed { before: start, after: now })
    } else {
        Ok(now - start)
    }
}

/// Decides what follows a display transition.
pub fn classify_edge(transition: Option<GpuState>) -> (edge: Edge)
    ensures
        edge == edge_of(transition),
{
    match transition {
        Some(GpuState::VBlank) => Edge::Frame,
        Some(GpuState::HBlank) => Edge::Scanline,
        _ => Edge::Quiet,
    }
}

/// What one step did.
pub struct StepReport {
    /// The DMA engine performed a transfer and took the cycle.
    pub dma_took_cycle: bool,
    /// An interrupt was pending and the CPU core entered its vector.
    pub interrupt_serviced: bool,
    /// The halt state that decided whether the CPU core ran: the one found
    /// after the DMA engine declined and a pending interrupt woke the core.
    pub halt: HaltState,
    /// The CPU cycle counter before any unit acted.
    pub start: usize,
    /// The elapsed cycles by which timers and display were advanced.
    pub cycles: usize,
    /// The phase that the display controller reported entering.
    pub transition: Option<GpuState>,
    /// The interrupt requests that were forwarded to the controller.
    pub requested: IrqBitmask,
}

impl StepReport {
    /// Whether the CPU core executed an instruction in this step.
    pub open spec fn cpu_executed(&self) -> bool {
        !self.dma_took_cycle && self.halt == HaltState::Running
    }

    /// Whether the completed frame went to the backend in this step.
    pub open spec fn frame_presented(&self) -> bool {
        self.transition == Some(GpuState::VBlank)
    }

    /// The CPU cycle counter after the step: moved on by the elapsed cycles
    /// when the core executed, and where it was otherwise.
    pub open spec fn counter_after(&self) -> int {
        if self.cpu_executed() {
            self.start + self.cycles
        } else {
            self.start as int
        }
    }

    /// What holds of the report of every completed step.
    pub open spec fn wf(&self) -> bool {
        &&& self.dma_took_cycle ==> !self.interrupt_serviced && self.cycles == 0
        &&& self.interrupt_serviced ==> self.halt == HaltState::Running
        &&& !self.dma_took_cycle && self.halt != HaltState::Running ==> self.cycles == 1
        &&& self.cpu_executed() ==> self.start + self.cycles <= usize::MAX
    }

    /// Whether the CPU core executed an instruction in this step.
    pub fn executed(&self) -> (ran: bool)
        ensures
            ran == self.cpu_executed(),
    {
        !self.dma_took_cycle && self.halt == HaltState::Running
    }

    /// Whether the completed frame went to the backend in this step.
    pub fn presented(&self) -> (shown: bool)
        ensures
            shown == self.frame_presented(),
    {
        match self.transition {
            Some(GpuState::VBlank) => true,
            _ => false,
        }
    }
}

} // verus!
