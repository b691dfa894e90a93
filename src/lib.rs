//! A safety layer around the NI-DAQmx driver's task interface.
//!
//! A [`Task`] owns one native driver task handle, shared by cheap clones and
//! released once. Its marker type (`AnalogInput`, `DigitalOutput`, ...)
//! decides at compile time which channels it accepts and which sample types
//! it reads or writes. Reads and writes go through one generic contract
//! ([`InputTask`], [`OutputTask`]) that checks buffers before the driver is
//! called, and every driver status code is classified by
//! [`error::handle_error`] into success, advisory warning or fatal error.
//!
//! The driver itself is reached through the [`Driver`] trait, implemented
//! over the vendor's C interface outside this crate.

use vstd::prelude::*;

pub mod analog;
pub mod channels;
pub mod constants;
pub mod counter;
pub mod devices;
pub mod digital;
pub mod driver;
pub mod error;
pub mod io;
pub mod task;
pub mod text;
pub mod types;

pub use channels::{
    AnalogChannelBase,
    AnalogTerminalConfig,
    ChannelBuilderInput,
    ChannelBuilderOutput,
    CounterChannelBase,
    CounterInputCountEdgesChannel,
    DigitalChannel,
    DigitalChannelBase,
    VoltageChannelBase,
    VoltageScale,
};
pub use counter::{CounterInputTask, CounterOutputTask};
pub use driver::{Driver, ErrorText};
pub use error::DaqmxError;
pub use io::{DAQmxInput, DAQmxOutput, InputTask, OutputTask};
pub use task::{AnalogInput, AnalogOutput, CounterInput, CounterOutput, DigitalInput, DigitalOutput, Task};
pub use types::{ClockEdge, DataFillMode, SampleMode, Timeout};

verus! {

} // verus!
