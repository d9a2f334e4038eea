//! Value types of the link-layer platform layer: the bootstrap
//! configuration, interrupt-handler records, interrupt masks, the
//! software-interrupt priority and scheduler timings.

use vstd::prelude::*;

verus! {

/// Record of an interrupt service routine registered with the platform,
/// held as the routine's address.
#[derive(Debug, Clone, Copy, PartialEq, Eq, Structural)]
pub struct InterruptHandler {
    raw: usize,
}

impl InterruptHandler {
    /// The recorded routine address.
    pub closed spec fn spec_raw(self) -> usize {
        self.raw
    }

    /// Record a routine by its address.
    pub fn new(raw: usize) -> (r: InterruptHandler)
        ensures
            r.spec_raw() == raw,
    {
        InterruptHandler { raw }
    }

    /// The recorded routine address.
    pub fn raw(self) -> (r: usize)
        ensures
            r == self.spec_raw(),
    {
        self.raw
    }
}

/// Runtime configuration applied when bootstrapping the link-layer
/// platform.
#[derive(Debug, Clone, Copy, PartialEq, Eq, Structural)]
pub struct Config {
    /// Run the clock initialisation routine before touching any other
    /// entry point.
    pub clock_init: bool,
    /// Optional high-priority radio interrupt handler.
    pub radio_isr: Option<InterruptHandler>,
    /// Optional software low-priority interrupt handler.
    pub sw_low_isr: Option<InterruptHandler>,
    /// Enable the baseband clock as part of the initialisation sequence.
    pub enable_active_clock: bool,
}

impl Default for Config {
    /// The default bootstrap: initialise the clock and enable the
    /// baseband clock, registering no handlers.
    fn default() -> (r: Config)
        ensures
            r.clock_init,
            r.radio_isr is None,
            r.sw_low_isr is None,
            r.enable_active_clock,
    {
        Config { clock_init: true, radio_isr: None, sw_low_isr: None, enable_active_clock: true }
    }
}

/// Priority at which the software low-priority interrupt is triggered.
#[derive(Debug, Clone, Copy, PartialEq, Eq, Structural)]
pub enum SwLowPriority {
    /// Run the ISR with the default (high) priority.
    High,
    /// Demote the ISR to the lowest radio priority.
    Low,
}

impl Default for SwLowPriority {
    /// The default priority is the high one.
    fn default() -> (r: SwLowPriority)
        ensures
            r == SwLowPriority::High,
    {
        SwLowPriority::High
    }
}

impl SwLowPriority {
    /// The raw priority code handed to the platform.
    pub fn to_raw(self) -> (r: u8)
        ensures
            self == SwLowPriority::High ==> r == 0,
            self == SwLowPriority::Low ==> r == 1,
    {
        match self {
            SwLowPriority::High => 0,
            SwLowPriority::Low => 1,
        }
    }
}

/// Convenience bit-mask describing which interrupt groups to toggle.
#[derive(Debug, Clone, Copy, PartialEq, Eq, Structural)]
pub struct InterruptMask {
    bits: u8,
}

impl InterruptMask {
    /// The raw bits of this mask.
    pub closed spec fn spec_bits(self) -> u8 {
        self.bits
    }

    /// A mask selecting no interrupt group.
    pub fn empty() -> (r: InterruptMask)
        ensures
            r.spec_bits() == 0,
    {
        InterruptMask { bits: 0 }
    }

    /// The mask of the high-priority radio interrupt group.
    pub fn radio_high() -> (r: InterruptMask)
        ensures
            r.spec_bits() == crate::ll_sys_if::LL_HIGH_ISR_ONLY,
    {
        InterruptMask { bits: crate::ll_sys_if::LL_HIGH_ISR_ONLY }
    }

    /// The mask of the low-priority radio interrupt group.
    pub fn radio_low() -> (r: InterruptMask)
        ensures
            r.spec_bits() == crate::ll_sys_if::LL_LOW_ISR_ONLY,
    {
        InterruptMask { bits: crate::ll_sys_if::LL_LOW_ISR_ONLY }
    }

    /// The mask of the low-priority system interrupt group.
    pub fn system_low() -> (r: InterruptMask)
        ensures
            r.spec_bits() == crate::ll_sys_if::SYS_LOW_ISR,
    {
        InterruptMask { bits: crate::ll_sys_if::SYS_LOW_ISR }
    }

    /// Rebuild a mask from raw bits.
    pub fn from_bits(bits: u8) -> (r: InterruptMask)
        ensures
            r.spec_bits() == bits,
    {
        InterruptMask { bits }
    }

    /// The union of two masks.
    pub fn union(self, other: InterruptMask) -> (r: InterruptMask)
        ensures
            r.spec_bits() == self.spec_bits() | other.spec_bits(),
    {
        InterruptMask { bits: self.bits | other.bits }
    }

    /// The raw bits expected by the platform.
    pub fn bits(self) -> (r: u8)
        ensures
            r == self.spec_bits(),
    {
        self.bits
    }

    /// Whether the mask selects no group at all.
    pub fn is_empty(self) -> (r: bool)
        ensures
            r == (self.spec_bits() == 0),
    {
        self.bits == 0
    }
}

/// Raw scheduler-timing triple in the layout the platform expects.
#[derive(Debug, Clone, Copy, PartialEq, Eq, Structural)]
pub struct RawEventTiming {
    pub drift_time: u32,
    pub exec_time: u32,
    pub schdling_time: u32,
}

/// Triple describing scheduler timings expressed in link-layer sleep-timer
/// cycles (31 µs each).
#[derive(Debug, Clone, Copy, PartialEq, Eq, Structural)]
pub struct SchedulerTiming {
    pub drift_time: u32,
    pub execution_time: u32,
    pub scheduling_time: u32,
}

impl SchedulerTiming {
    /// Bundle the three timing values.
    pub fn new(drift_time: u32, execution_time: u32, scheduling_time: u32) -> (r: SchedulerTiming)
        ensures
            r.drift_time == drift_time,
            r.execution_time == execution_time,
            r.scheduling_time == scheduling_time,
    {
        SchedulerTiming { drift_time, execution_time, scheduling_time }
    }

    /// The raw layout handed to the platform.
    pub fn into_raw(self) -> (r: RawEventTiming)
        ensures
            r.drift_time == self.drift_time,
            r.exec_time == self.execution_time,
            r.schdling_time == self.scheduling_time,
    {
        RawEventTiming {
            drift_time: self.drift_time,
            exec_time: self.execution_time,
            schdling_time: self.scheduling_time,
        }
    }
}

} // verus!
