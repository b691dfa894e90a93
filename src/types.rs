//! Value types shared by tasks and channels, and their driver codes.

use vstd::prelude::*;
use crate::constants::{
    DAQmx_Val_AIConvertClock,
    DAQmx_Val_ArmStartTrigger,
    DAQmx_Val_ContSamps,
    DAQmx_Val_CountDown,
    DAQmx_Val_CountUp,
    DAQmx_Val_CounterOutputEvent,
    DAQmx_Val_ExtControlled,
    DAQmx_Val_Falling,
    DAQmx_Val_FiniteSamps,
    DAQmx_Val_GroupByChannel,
    DAQmx_Val_GroupByScanNumber,
    DAQmx_Val_HWTimedSinglePoint,
    DAQmx_Val_High,
    DAQmx_Val_Hz,
    DAQmx_Val_Low,
    DAQmx_Val_ReferenceTrigger,
    DAQmx_Val_Rising,
    DAQmx_Val_SampleClock,
    DAQmx_Val_Seconds,
    DAQmx_Val_StartTrigger,
};

verus! {

/// Describes the memory layout of a 1D buffer that represents 2D data.
#[derive(Clone, Copy, Debug, PartialEq, Eq, Structural)]
pub enum DataFillMode {
    /// All samples of channel 0, then all samples of channel 1, and so on (non-interleaved).
    GroupByChannel,
    /// Sample 0 of every channel, then sample 1 of every channel, and so on (interleaved).
    GroupByScanNumber,
}

impl DataFillMode {
    pub open spec fn spec_code(self) -> u32 {
        match self {
            DataFillMode::GroupByChannel => DAQmx_Val_GroupByChannel,
            DataFillMode::GroupByScanNumber => DAQmx_Val_GroupByScanNumber,
        }
    }

    /// The driver's value for this layout (a driver boolean).
    pub fn code(self) -> (r: u32)
        ensures
            r == self.spec_code(),
    {
        match self {
            DataFillMode::GroupByChannel => DAQmx_Val_GroupByChannel,
            DataFillMode::GroupByScanNumber => DAQmx_Val_GroupByScanNumber,
        }
    }
}

/// How long a read, write or wait may block.
///
/// `S` is the driver's number type for a duration in seconds.
#[derive(Clone, Copy, Debug)]
pub enum Timeout<S> {
    /// Wait as long as it takes.
    WaitForever,
    /// Do not wait: take what is available now.
    NoWait,
    /// Wait at most this many seconds. If not all samples arrive in time, the
    /// operation fails with the driver's timeout error.
    Seconds(S),
}

/// The active edge of a clock or trigger. The default is the rising edge.
#[derive(Clone, Copy, Debug, PartialEq, Eq, Structural)]
pub enum ClockEdge {
    Rising,
    Falling,
}

impl Default for ClockEdge {
    fn default() -> (r: Self)
        ensures
            r == ClockEdge::Rising,
    {
        ClockEdge::Rising
    }
}

impl ClockEdge {
    pub open spec fn spec_code(self) -> i32 {
        match self {
            ClockEdge::Rising => DAQmx_Val_Rising,
            ClockEdge::Falling => DAQmx_Val_Falling,
        }
    }
}

impl From<ClockEdge> for i32 {
    fn from(edge: ClockEdge) -> i32 {
        match edge {
            ClockEdge::Rising => DAQmx_Val_Rising,
            ClockEdge::Falling => DAQmx_Val_Falling,
        }
    }
}

impl vstd::std_specs::convert::FromSpecImpl<ClockEdge> for i32 {
    open spec fn obeys_from_spec() -> bool {
        true
    }

    open spec fn from_spec(v: ClockEdge) -> i32 {
        v.spec_code()
    }
}

/// The resting level of a counter output between pulses.
#[derive(Clone, Copy, Debug, PartialEq, Eq, Structural, Default)]
pub enum IdleState {
    #[default]
    Low,
    High,
}

impl IdleState {
    pub open spec fn spec_code(self) -> i32 {
        match self {
            IdleState::Low => DAQmx_Val_Low,
            IdleState::High => DAQmx_Val_High,
        }
    }
}

impl From<IdleState> for i32 {
    fn from(idle: IdleState) -> i32 {
        match idle {
            IdleState::Low => DAQmx_Val_Low,
            IdleState::High => DAQmx_Val_High,
        }
    }
}

impl vstd::std_specs::convert::FromSpecImpl<IdleState> for i32 {
    open spec fn obeys_from_spec() -> bool {
        true
    }

    open spec fn from_spec(v: IdleState) -> i32 {
        v.spec_code()
    }
}

/// Time units of pulse-time counter channels.
#[derive(Clone, Copy, Debug, PartialEq, Eq, Structural, Default)]
pub enum TimeUnits {
    #[default]
    Seconds,
}

impl TimeUnits {
    pub open spec fn spec_code(self) -> i32 {
        match self {
            TimeUnits::Seconds => DAQmx_Val_Seconds,
        }
    }
}

impl From<TimeUnits> for i32 {
    fn from(units: TimeUnits) -> i32 {
        match units {
            TimeUnits::Seconds => DAQmx_Val_Seconds,
        }
    }
}

impl vstd::std_specs::convert::FromSpecImpl<TimeUnits> for i32 {
    open spec fn obeys_from_spec() -> bool {
        true
    }

    open spec fn from_spec(v: TimeUnits) -> i32 {
        v.spec_code()
    }
}

/// Frequency units of pulse-frequency counter channels.
#[derive(Clone, Copy, Debug, PartialEq, Eq, Structural, Default)]
pub enum FrequencyUnits {
    #[default]
    Hertz,
}

impl FrequencyUnits {
    pub open spec fn spec_code(self) -> i32 {
        match self {
            FrequencyUnits::Hertz => DAQmx_Val_Hz,
        }
    }
}

impl From<FrequencyUnits> for i32 {
    fn from(units: FrequencyUnits) -> i32 {
        match units {
            FrequencyUnits::Hertz => DAQmx_Val_Hz,
        }
    }
}

impl vstd::std_specs::convert::FromSpecImpl<FrequencyUnits> for i32 {
    open spec fn obeys_from_spec() -> bool {
        true
    }

    open spec fn from_spec(v: FrequencyUnits) -> i32 {
        v.spec_code()
    }
}

/// Count direction of edge-counting counter input channels.
#[derive(Clone, Copy, Debug, PartialEq, Eq, Structural, Default)]
pub enum CountDirection {
    #[default]
    CountUp,
    CountDown,
    ExternalControl,
}

impl CountDirection {
    pub open spec fn spec_code(self) -> i32 {
        match self {
            CountDirection::CountUp => DAQmx_Val_CountUp,
            CountDirection::CountDown => DAQmx_Val_CountDown,
            CountDirection::ExternalControl => DAQmx_Val_ExtControlled,
        }
    }
}

impl From<CountDirection> for i32 {
    fn from(direction: CountDirection) -> i32 {
        match direction {
            CountDirection::CountUp => DAQmx_Val_CountUp,
            CountDirection::CountDown => DAQmx_Val_CountDown,
            CountDirection::ExternalControl => DAQmx_Val_ExtControlled,
        }
    }
}

impl vstd::std_specs::convert::FromSpecImpl<CountDirection> for i32 {
    open spec fn obeys_from_spec() -> bool {
        true
    }

    open spec fn from_spec(v: CountDirection) -> i32 {
        v.spec_code()
    }
}

/// Signals that a task can export onto a terminal such as `"/DevX/PFI0"`.
#[derive(Clone, Copy, Debug, PartialEq, Eq, Structural)]
pub enum ExportSignal {
    /// The task's sample clock.
    SampleClock,
    /// The start trigger.
    StartTrigger,
    /// The reference trigger.
    ReferenceTrigger,
    /// The arm-start trigger.
    ArmStartTrigger,
    /// The analog input convert clock.
    AiConvertClock,
    /// The counter output event.
    CounterOutputEvent,
}

impl ExportSignal {
    pub open spec fn spec_code(self) -> i32 {
        match self {
            ExportSignal::SampleClock => DAQmx_Val_SampleClock,
            ExportSignal::StartTrigger => DAQmx_Val_StartTrigger,
            ExportSignal::ReferenceTrigger => DAQmx_Val_ReferenceTrigger,
            ExportSignal::ArmStartTrigger => DAQmx_Val_ArmStartTrigger,
            ExportSignal::AiConvertClock => DAQmx_Val_AIConvertClock,
            ExportSignal::CounterOutputEvent => DAQmx_Val_CounterOutputEvent,
        }
    }
}

impl From<ExportSignal> for i32 {
    fn from(signal: ExportSignal) -> i32 {
        match signal {
            ExportSignal::SampleClock => DAQmx_Val_SampleClock,
            ExportSignal::StartTrigger => DAQmx_Val_StartTrigger,
            ExportSignal::ReferenceTrigger => DAQmx_Val_ReferenceTrigger,
            ExportSignal::ArmStartTrigger => DAQmx_Val_ArmStartTrigger,
            ExportSignal::AiConvertClock => DAQmx_Val_AIConvertClock,
            ExportSignal::CounterOutputEvent => DAQmx_Val_CounterOutputEvent,
        }
    }
}

impl vstd::std_specs::convert::FromSpecImpl<ExportSignal> for i32 {
    open spec fn obeys_from_spec() -> bool {
        true
    }

    open spec fn from_spec(v: ExportSignal) -> i32 {
        v.spec_code()
    }
}

/// The timing mode of a task.
#[derive(Clone, Copy, Debug, PartialEq, Eq, Structural)]
pub enum SampleMode {
    /// Acquire or generate a finite number of samples.
    FiniteSamples,
    /// Acquire or generate samples until the task is stopped.
    ContinuousSamples,
    /// Hardware-timed acquisition or generation of one sample at a time, without a buffer.
    HardwareTimedSinglePoint,
}

impl SampleMode {
    pub open spec fn spec_code(self) -> i32 {
        match self {
            SampleMode::FiniteSamples => DAQmx_Val_FiniteSamps,
            SampleMode::ContinuousSamples => DAQmx_Val_ContSamps,
            SampleMode::HardwareTimedSinglePoint => DAQmx_Val_HWTimedSinglePoint,
        }
    }
}

impl From<SampleMode> for i32 {
    fn from(mode: SampleMode) -> i32 {
        match mode {
            SampleMode::FiniteSamples => DAQmx_Val_FiniteSamps,
            SampleMode::ContinuousSamples => DAQmx_Val_ContSamps,
            SampleMode::HardwareTimedSinglePoint => DAQmx_Val_HWTimedSinglePoint,
        }
    }
}

impl vstd::std_specs::convert::FromSpecImpl<SampleMode> for i32 {
    open spec fn obeys_from_spec() -> bool {
        true
    }

    open spec fn from_spec(v: SampleMode) -> i32 {
        v.spec_code()
    }
}

/// The kinds of physical channel a device offers.
#[derive(Clone, Copy, Debug, PartialEq, Eq, Structural)]
pub enum ChannelType {
    /// Analog input.
    AI,
    /// Analog output.
    AO,
    /// Digital input.
    DI,
    /// Digital output.
    DO,
    /// Counter input.
    CI,
    /// Counter output.
    CO,
}

} // verus!
