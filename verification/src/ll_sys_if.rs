//! Value types of the link-layer system layer: bootstrap configuration,
//! scheduler timings, status codes and the deep-sleep state, with the
//! conversions between the typed and the raw representations.

use vstd::prelude::*;

verus! {

/// Raw code reported by the system layer for a successful call.
pub const LL_SYS_STATUS_OK: u32 = 0;

/// Raw code reported by the system layer for a failed call.
pub const LL_SYS_STATUS_ERROR: u32 = 1;

/// Raw code reported by the system layer while it is busy.
pub const LL_SYS_STATUS_BUSY: u32 = 2;

/// Raw code for the deep-sleep controller's disabled state.
pub const LL_SYS_DEEP_SLEEP_DISABLED: u32 = 0;

/// Raw code for the deep-sleep controller's enabled state.
pub const LL_SYS_DEEP_SLEEP_ENABLED: u32 = 1;

/// Bit selecting the high-priority radio interrupt group.
pub const LL_HIGH_ISR_ONLY: u8 = 1;

/// Bit selecting the low-priority radio interrupt group.
pub const LL_LOW_ISR_ONLY: u8 = 2;

/// Bit selecting the low-priority system interrupt group.
pub const SYS_LOW_ISR: u8 = 4;

/// Runtime configuration applied when bootstrapping the link-layer system
/// layer.
#[derive(Debug, Clone, Copy, PartialEq, Eq, Structural)]
pub struct SystemConfig {
    /// Configure the system parameters before any other action.
    pub configure_params: bool,
    /// Register the background process with the scheduler.
    pub init_background_task: bool,
    /// Enable IRQs once initialisation completes.
    pub enable_irq_on_init: bool,
}

impl Default for SystemConfig {
    /// The default bootstrap: configure, register and enable everything.
    fn default() -> (r: SystemConfig)
        ensures
            r.configure_params,
            r.init_background_task,
            r.enable_irq_on_init,
    {
        SystemConfig { configure_params: true, init_background_task: true, enable_irq_on_init: true }
    }
}

/// Convenience bit-mask describing which interrupt groups to toggle.
#[derive(Debug, Clone, Copy, PartialEq, Eq, Structural)]
pub struct InterruptMask {
    bits: u8,
}

impl InterruptMask {
    /// The raw bits of this mask.
    pub closed spec fn spec_bits(self) -> u8 {
        self.bits
    }

    /// A mask selecting no interrupt group.
    pub fn empty() -> (r: InterruptMask)
        ensures
            r.spec_bits() == 0,
    {
        InterruptMask { bits: 0 }
    }

    /// The mask of the high-priority radio interrupt group.
    pub fn radio_high() -> (r: InterruptMask)
        ensures
            r.spec_bits() == LL_HIGH_ISR_ONLY,
    {
        InterruptMask { bits: LL_HIGH_ISR_ONLY }
    }

    /// The mask of the low-priority radio interrupt group.
    pub fn radio_low() -> (r: InterruptMask)
        ensures
            r.spec_bits() == LL_LOW_ISR_ONLY,
    {
        InterruptMask { bits: LL_LOW_ISR_ONLY }
    }

    /// The mask of the low-priority system interrupt group.
    pub fn system_low() -> (r: InterruptMask)
        ensures
            r.spec_bits() == SYS_LOW_ISR,
    {
        InterruptMask { bits: SYS_LOW_ISR }
    }

    /// Rebuild a mask from raw bits.
    pub fn from_bits(bits: u8) -> (r: InterruptMask)
        ensures
            r.spec_bits() == bits,
    {
        InterruptMask { bits }
    }

    /// The union of two masks.
    pub fn union(self, other: InterruptMask) -> (r: InterruptMask)
        ensures
            r.spec_bits() == self.spec_bits() | other.spec_bits(),
    {
        InterruptMask { bits: self.bits | other.bits }
    }

    /// The raw bits expected by the system layer.
    pub fn bits(self) -> (r: u8)
        ensures
            r == self.spec_bits(),
    {
        self.bits
    }

    /// Whether the mask selects no group at all.
    pub fn is_empty(self) -> (r: bool)
        ensures
            r == (self.spec_bits() == 0),
    {
        self.bits == 0
    }
}

/// Raw scheduler-timing triple in the layout the system layer expects.
#[derive(Debug, Clone, Copy, PartialEq, Eq, Structural)]
pub struct RawEventTiming {
    pub drift_time: u32,
    pub exec_time: u32,
    pub schdling_time: u32,
}

/// Triple describing scheduler timings expressed in link-layer sleep-timer
/// cycles (31 µs each).
#[derive(Debug, Clone, Copy, PartialEq, Eq, Structural)]
pub struct SchedulerTiming {
    pub drift_time: u32,
    pub execution_time: u32,
    pub scheduling_time: u32,
}

impl SchedulerTiming {
    /// Bundle the three timing values.
    pub fn new(drift_time: u32, execution_time: u32, scheduling_time: u32) -> (r: SchedulerTiming)
        ensures
            r.drift_time == drift_time,
            r.execution_time == execution_time,
            r.scheduling_time == scheduling_time,
    {
        SchedulerTiming { drift_time, execution_time, scheduling_time }
    }

    /// The raw layout handed to the system layer.
    pub fn into_raw(self) -> (r: RawEventTiming)
        ensures
            r.drift_time == self.drift_time,
            r.exec_time == self.execution_time,
            r.schdling_time == self.scheduling_time,
    {
        RawEventTiming {
            drift_time: self.drift_time,
            exec_time: self.execution_time,
            schdling_time: self.scheduling_time,
        }
    }
}

/// Status codes returned by several system-layer routines.
#[derive(Debug, Clone, Copy, PartialEq, Eq, Structural)]
pub enum LlSysStatus {
    Success,
    Error,
    Busy,
}

impl LlSysStatus {
    /// The status variant that a raw code decodes to: every code other
    /// than the two named ones reads as an error.
    pub open spec fn spec_from_raw(value: u32) -> LlSysStatus {
        if value == LL_SYS_STATUS_OK {
            LlSysStatus::Success
        } else if value == LL_SYS_STATUS_BUSY {
            LlSysStatus::Busy
        } else {
            LlSysStatus::Error
        }
    }

    /// Decode a raw system-layer status code.
    pub fn from_raw(value: u32) -> (r: LlSysStatus)
        ensures
            r == LlSysStatus::spec_from_raw(value),
    {
        if value == LL_SYS_STATUS_OK {
            LlSysStatus::Success
        } else if value == LL_SYS_STATUS_BUSY {
            LlSysStatus::Busy
        } else {
            LlSysStatus::Error
        }
    }

    /// Converts the status into a `Result`, treating [`LlSysStatus::Success`]
    /// as the success case and every other status as the error it names.
    pub fn into_result(self) -> (r: Result<(), LlSysStatus>)
        ensures
            self == LlSysStatus::Success ==> r == Result::<(), LlSysStatus>::Ok(()),
            self != LlSysStatus::Success ==> r == Result::<(), LlSysStatus>::Err(self),
    {
        match self {
            LlSysStatus::Success => Ok(()),
            other => Err(other),
        }
    }
}

/// Deep sleep state reported by the system layer.
#[derive(Debug, Clone, Copy, PartialEq, Eq, Structural)]
pub enum DeepSleepState {
    Disabled,
    Enabled,
}

impl DeepSleepState {
    /// Decode the raw deep-sleep state: every code other than the enabled
    /// one reads as disabled.
    pub fn from_raw(value: u32) -> (r: DeepSleepState)
        ensures
            value == LL_SYS_DEEP_SLEEP_ENABLED ==> r == DeepSleepState::Enabled,
            value != LL_SYS_DEEP_SLEEP_ENABLED ==> r == DeepSleepState::Disabled,
    {
        if value == LL_SYS_DEEP_SLEEP_ENABLED {
            DeepSleepState::Enabled
        } else {
            DeepSleepState::Disabled
        }
    }
}

} // verus!
