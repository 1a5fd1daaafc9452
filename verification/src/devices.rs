//! The hardware units that the scheduler drives, and the plain values that
//! pass between them.
//!
//! Each unit is a trait that the embedder implements. A unit names what it
//! answers and how a call changes it: the `spec` members of its trait. The
//! scheduler's contracts are stated over those names, so they hold of a
//! machine as far as its units keep to the contracts of their methods. A
//! relation such as [`Cpu::executed_from`] may say as much or as little as
//! the unit cares to promise.

use vstd::prelude::*;

verus! {

/// The key-state register when no key is held: one bit per key, set while
/// the key is released.
pub const KEYINPUT_ALL_RELEASED: u16 = 0x03FF;

/// Whether the CPU core is executing instructions.
#[derive(Clone, Copy, Debug, PartialEq, Eq, Structural)]
pub enum HaltState {
    /// The core executes instructions.
    Running,
    /// The core sleeps until an interrupt arrives.
    Halt,
    /// The core and most units sleep until an interrupt arrives.
    Stop,
}

/// The phase of the display refresh cycle.
#[derive(Clone, Copy, Debug, PartialEq, Eq, Structural)]
pub enum GpuState {
    /// A scanline is being drawn.
    HDraw,
    /// Horizontal blanking, between two scanlines.
    HBlank,
    /// Vertical blanking, between two frames.
    VBlank,
}

/// A set of interrupt-source flags, one bit per source.
#[derive(Clone, Copy, Debug, PartialEq, Eq, Structural)]
pub struct IrqBitmask(pub u16);

/// The registers of the IO-device aggregate that the scheduler itself reads
/// and writes.
pub struct IoRegisters {
    /// The key-state register, refreshed from the backend once per frame.
    pub keyinput: u16,
    /// The halt state, entered by the CPU core and left on an interrupt.
    pub haltcnt: HaltState,
}

/// The memory bus: the IO registers beside the memory `M` that the embedder
/// maps (BIOS, cartridge, work RAM).
pub struct SysBus<M> {
    pub io: IoRegisters,
    pub memory: M,
}

/// The units of the IO-device aggregate. They are kept beside the bus, not
/// inside it, so that each can be handed the bus while it works.
pub struct IoDevices<D, T, G, I> {
    pub dmac: D,
    pub timers: T,
    pub gpu: G,
    pub intc: I,
}

/// The CPU core.
pub trait Cpu<M> {
    /// Why the core could not execute an instruction.
    type Fault;

    /// The cycle counter, in bus cycles.
    spec fn counter(&self) -> usize;

    /// The address of the next instruction, which has not executed yet.
    spec fn next_pc(&self) -> u32;

    /// This is the core after it entered the interrupt vector from `before`,
    /// on a bus that went from `bus_before` to `bus_after`.
    spec fn entered_from(&self, before: &Self, bus_before: &SysBus<M>, bus_after: &SysBus<M>) -> bool;

    /// This is the core after it executed one instruction from `before`, on
    /// a bus that went from `bus_before` to `bus_after`.
    spec fn executed_from(&self, before: &Self, bus_before: &SysBus<M>, bus_after: &SysBus<M>) -> bool;

    /// This is the core after it failed with `fault` to execute an
    /// instruction from `before`, on a bus that went from `bus_before` to
    /// `bus_after`.
    spec fn faulted_from(
        &self,
        before: &Self,
        bus_before: &SysBus<M>,
        bus_after: &SysBus<M>,
        fault: &Self::Fault,
    ) -> bool;

    /// Reads the cycle counter.
    fn cycles(&self) -> (cycles: usize)
        ensures
            cycles == self.counter(),
    ;

    /// Reads the address of the next instruction.
    fn get_next_pc(&self) -> (pc: u32)
        ensures
            pc == self.next_pc(),
    ;

    /// Enters the interrupt vector: saves state and jumps.
    fn irq(&mut self, bus: &mut SysBus<M>)
        ensures
            final(self).entered_from(old(self), old(bus), final(bus)),
    ;

    /// Executes exactly one instruction.
    fn step(&mut self, bus: &mut SysBus<M>) -> (result: Result<(), Self::Fault>)
        ensures
            match result {
                Ok(_) => final(self).executed_from(old(self), old(bus), final(bus)),
                Err(fault) => final(self).faulted_from(old(self), old(bus), final(bus), &fault),
            },
    ;
}

/// The DMA engine.
pub trait DmaController<M> {
    /// Whether an attempt on `bus` performs a transfer.
    spec fn will_take(&self, bus: &SysBus<M>) -> bool;

    /// This is the engine after an attempt from `before`, on a bus that went
    /// from `bus_before` to `bus_after` and with interrupt requests that
    /// went from `irqs_before` to `irqs_after`.
    spec fn worked_from(
        &self,
        before: &Self,
        bus_before: &SysBus<M>,
        bus_after: &SysBus<M>,
        irqs_before: IrqBitmask,
        irqs_after: IrqBitmask,
    ) -> bool;

    /// This is the engine after `before` learned of a vertical-blanking
    /// edge.
    spec fn vblank_from(&self, before: &Self) -> bool;

    /// This is the engine after `before` learned of a horizontal-blanking
    /// edge.
    spec fn hblank_from(&self, before: &Self) -> bool;

    /// Attempts a transfer. Returns `true` when it performed one and thereby
    /// took the current cycle.
    fn perform_work(&mut self, bus: &mut SysBus<M>, irqs: &mut IrqBitmask) -> (took: bool)
        ensures
            took == old(self).will_take(old(bus)),
            final(self).worked_from(old(self), old(bus), final(bus), *old(irqs), *final(irqs)),
    ;

    /// The display entered vertical blanking.
    fn notify_vblank(&mut self)
        ensures
            final(self).vblank_from(old(self)),
    ;

    /// The display entered horizontal blanking.
    fn notify_hblank(&mut self)
        ensures
            final(self).hblank_from(old(self)),
    ;
}

/// The timer bank.
pub trait Timers<M> {
    /// This is the bank after `before` advanced by `cycles`, on a bus that
    /// went from `bus_before` to `bus_after` and with interrupt requests
    /// that went from `irqs_before` to `irqs_after`.
    spec fn advanced_from(
        &self,
        before: &Self,
        cycles: usize,
        bus_before: &SysBus<M>,
        bus_after: &SysBus<M>,
        irqs_before: IrqBitmask,
        irqs_after: IrqBitmask,
    ) -> bool;

    /// Advances every counter by `cycles`; may request interrupts.
    fn step(&mut self, cycles: usize, bus: &mut SysBus<M>, irqs: &mut IrqBitmask)
        ensures
            final(self).advanced_from(
                old(self),
                cycles,
                old(bus),
                final(bus),
                *old(irqs),
                *final(irqs),
            ),
    ;
}

/// The display controller.
pub trait Gpu<M> {
    /// The current phase of the refresh cycle.
    spec fn phase(&self) -> GpuState;

    /// The pixels of the frame that was completed last.
    spec fn pixels(&self) -> &[u32];

    /// This is the display after `before` advanced by `cycles` and reported
    /// `entered`, on a bus that went from `bus_before` to `bus_after` and
    /// with interrupt requests that went from `irqs_before` to `irqs_after`.
    spec fn advanced_from(
        &self,
        before: &Self,
        cycles: usize,
        bus_before: &SysBus<M>,
        bus_after: &SysBus<M>,
        irqs_before: IrqBitmask,
        irqs_after: IrqBitmask,
        entered: Option<GpuState>,
    ) -> bool;

    /// Reads the current phase of the refresh cycle.
    fn state(&self) -> (state: GpuState)
        ensures
            state == self.phase(),
    ;

    /// Advances by `cycles`; may request interrupts. Returns the phase that
    /// was entered, if one was.
    fn step(&mut self, cycles: usize, bus: &mut SysBus<M>, irqs: &mut IrqBitmask) -> (entered:
        Option<GpuState>)
        ensures
            final(self).advanced_from(
                old(self),
                cycles,
                old(bus),
                final(bus),
                *old(irqs),
                *final(irqs),
                entered,
            ),
    ;

    /// Hands out the pixels of the frame that was completed last.
    fn get_framebuffer(&self) -> (buffer: &[u32])
        ensures
            buffer == self.pixels(),
    ;
}

/// The interrupt controller.
pub trait InterruptController {
    /// Whether an interrupt is both requested and enabled.
    spec fn pending(&self) -> bool;

    /// This is the controller after `before` took the requests `irqs`.
    spec fn merged_from(&self, before: &Self, irqs: IrqBitmask) -> bool;

    /// Asks whether an interrupt is both requested and enabled.
    fn irq_pending(&self) -> (pending: bool)
        ensures
            pending == self.pending(),
    ;

    /// Merges `irqs` into the requested interrupts.
    fn request_irqs(&mut self, irqs: IrqBitmask)
        ensures
            final(self).merged_from(old(self), irqs),
    ;
}

/// Where input comes from and where completed frames go. The backend holds
/// the key state that it sampled last: a poll reads it and changes nothing.
pub trait EmulatorBackend {
    /// The keys that are held now.
    spec fn keys(&self) -> u16;

    /// This is the backend after `before` took the completed frame `frame`.
    spec fn took_frame(&self, before: &Self, frame: &[u32]) -> bool;

    /// Polls the keys that are held now.
    fn get_key_state(&self) -> (keys: u16)
        ensures
            keys == self.keys(),
    ;

    /// Takes a completed frame.
    fn render(&mut self, buffer: &[u32])
        ensures
            final(self).took_frame(old(self), buffer),
    ;
}

} // verus!
