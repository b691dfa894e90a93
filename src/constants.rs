//! Numeric values that the vendor driver defines for its enumerations and status codes.
#![allow(non_upper_case_globals)]

use vstd::prelude::*;

verus! {

/// Data layout: all samples of one channel, then the next channel.
pub const DAQmx_Val_GroupByChannel: u32 = 0;

/// Data layout: one sample of every channel, then the next sample.
pub const DAQmx_Val_GroupByScanNumber: u32 = 1;

pub const DAQmx_Val_Rising: i32 = 10280;

pub const DAQmx_Val_Falling: i32 = 10171;

pub const DAQmx_Val_Low: i32 = 10214;

pub const DAQmx_Val_High: i32 = 10192;

pub const DAQmx_Val_Seconds: i32 = 10364;

pub const DAQmx_Val_Hz: i32 = 10373;

pub const DAQmx_Val_CountUp: i32 = 10128;

pub const DAQmx_Val_CountDown: i32 = 10124;

pub const DAQmx_Val_ExtControlled: i32 = 10326;

pub const DAQmx_Val_SampleClock: i32 = 12487;

pub const DAQmx_Val_StartTrigger: i32 = 12491;

pub const DAQmx_Val_ReferenceTrigger: i32 = 12490;

pub const DAQmx_Val_ArmStartTrigger: i32 = 14641;

pub const DAQmx_Val_AIConvertClock: i32 = 12484;

pub const DAQmx_Val_CounterOutputEvent: i32 = 12494;

pub const DAQmx_Val_FiniteSamps: i32 = 10178;

pub const DAQmx_Val_ContSamps: i32 = 10123;

pub const DAQmx_Val_HWTimedSinglePoint: i32 = 12522;

pub const DAQmx_Val_Cfg_Default: i32 = -1;

pub const DAQmx_Val_RSE: i32 = 10083;

pub const DAQmx_Val_NRSE: i32 = 10078;

pub const DAQmx_Val_Diff: i32 = 10106;

pub const DAQmx_Val_PseudoDiff: i32 = 12529;

pub const DAQmx_Val_Volts: i32 = 10348;

pub const DAQmx_Val_FromCustomScale: i32 = 10065;

pub const DAQmx_Val_FromTEDS: i32 = 12516;

/// Line grouping: all lines of a digital channel form one channel.
pub const DAQmx_Val_ChanForAllLines: i32 = 1;

/// The text buffer handed to a string query was too small.
pub const DAQmxErrorBufferTooSmallForString: i32 = -200228;

/// A string returned by the driver was cut to fit the buffer.
pub const DAQmxWarningCAPIStringTruncatedToFitBuffer: i32 = 200026;

/// The size of the buffers that receive error and warning text.
pub const ERROR_TEXT_CAPACITY: usize = 2048;

/// The clock source used when none is named.
pub const ONBOARD_CLOCK: &'static str = "OnboardClock";

} // verus!
