//! The vendor driver's entry points, as this library calls them.
//!
//! Every call returns the driver's signed status code: zero for success, a
//! positive code for a warning, a negative code for a fatal error (see
//! `crate::error::handle_error`). A value that the driver writes back is
//! returned beside the status code.

use vstd::prelude::*;
use crate::types::Timeout;

verus! {

/// The driver's error and warning text, and the place where warnings are reported.
pub trait ErrorText {
    /// Fills `buffer` with the NUL-terminated extended description of the last fatal error.
    fn get_extended_error_info(&self, buffer: &mut [i8]) -> i32;

    /// Fills `buffer` with the NUL-terminated short description of status `code`.
    fn get_error_string(&self, code: i32, buffer: &mut [i8]) -> i32;

    /// Hands an advisory warning to the logging collaborator.
    fn report_warning(&self, code: i32, message: &str);
}

/// String properties of a task or of one of its channels.
#[derive(Clone, Copy, Debug, PartialEq, Eq, Structural)]
pub enum StringProperty {
    /// The name of the task (the channel argument is not used).
    TaskName,
    /// The physical channel(s) behind a virtual channel.
    PhysicalChannelName,
    /// The name of the custom scale of an analog input channel.
    AICustomScaleName,
}

/// Integer properties of a channel.
#[derive(Clone, Copy, Debug, PartialEq, Eq, Structural)]
pub enum IntProperty {
    /// The terminal configuration of an analog input channel.
    AITerminalConfig,
    /// The voltage units of an analog input channel.
    AIVoltageUnits,
}

/// Real-valued properties of a channel.
#[derive(Clone, Copy, Debug, PartialEq, Eq, Structural)]
pub enum RealProperty {
    /// The largest value an analog input channel is set up to measure.
    AIMax,
    /// The smallest value an analog input channel is set up to measure.
    AIMin,
}

/// The driver's task-level entry points.
///
/// `Handle` owns one native task handle; dropping it clears the task in the
/// driver. `Real` is the driver's real-number type, used for seconds, rates
/// and analog samples.
///
/// Buffer sizes handed over never exceed the buffer, and a write is never
/// handed an empty buffer or a sample count that splits a channel: the
/// `requires` clauses below hold at every call from this library.
pub trait Driver: ErrorText {
    type Real;

    type Handle;

    /// Creates a task. The handle is present when the driver created one.
    fn create_task(&self, name: &str) -> (i32, Option<Self::Handle>);

    fn start_task(&self, handle: &Self::Handle) -> i32;

    fn stop_task(&self, handle: &Self::Handle) -> i32;

    fn wait_until_task_done(&self, handle: &Self::Handle, timeout: &Timeout<Self::Real>) -> i32;

    /// Reads the "read starts the task" flag (a driver boolean: zero is false).
    fn get_read_auto_start(&self, handle: &Self::Handle) -> (i32, u32);

    fn set_read_auto_start(&self, handle: &Self::Handle, value: u32) -> i32;

    fn cfg_samp_clk_timing(
        &self,
        handle: &Self::Handle,
        source: &str,
        rate: &Self::Real,
        active_edge: i32,
        sample_mode: i32,
        samples_per_channel: u64,
    ) -> i32;

    fn cfg_dig_edge_start_trig(&self, handle: &Self::Handle, source: &str, edge: i32) -> i32;

    fn cfg_implicit_timing(&self, handle: &Self::Handle, sample_mode: i32, samples_per_channel: u64) -> i32;

    fn export_signal(&self, handle: &Self::Handle, signal: i32, terminal: &str) -> i32;

    /// Sets the pulse terminal of the named counter output channel, or of all of
    /// them when `channel` is empty.
    fn set_co_pulse_term(&self, handle: &Self::Handle, channel: &str, terminal: &str) -> i32;

    fn create_di_chan(&self, handle: &Self::Handle, lines: &str, name: &str, line_grouping: i32) -> i32;

    fn create_do_chan(&self, handle: &Self::Handle, lines: &str, name: &str, line_grouping: i32) -> i32;

    fn create_ci_count_edges_chan(
        &self,
        handle: &Self::Handle,
        counter: &str,
        name: &str,
        edge: i32,
        initial_count: u32,
        count_direction: i32,
    ) -> i32;

    /// Two-phase string query: with an empty buffer the status is the size the
    /// text needs (NUL included); otherwise the text is written into `buffer`.
    fn get_string_property(
        &self,
        handle: &Self::Handle,
        channel: &str,
        property: StringProperty,
        buffer: &mut [i8],
    ) -> i32;

    fn get_int_property(&self, handle: &Self::Handle, channel: &str, property: IntProperty) -> (i32, i32);

    fn get_real_property(&self, handle: &Self::Handle, channel: &str, property: RealProperty) -> (i32, Self::Real);

    /// Buffered analog read; the second value is the samples read per channel.
    fn read_analog(
        &self,
        handle: &Self::Handle,
        samples_per_channel: i32,
        timeout: &Timeout<Self::Real>,
        fill_mode: u32,
        buffer: &mut [Self::Real],
        buffer_size: u32,
    ) -> (i32, i32)
        requires
            buffer_size <= old(buffer)@.len(),
    ;

    /// Buffered digital read, one byte per line; the second value is the samples read per channel.
    fn read_digital_lines(
        &self,
        handle: &Self::Handle,
        samples_per_channel: i32,
        timeout: &Timeout<Self::Real>,
        fill_mode: u32,
        buffer: &mut [u8],
        buffer_size: u32,
    ) -> (i32, i32)
        requires
            buffer_size <= old(buffer)@.len(),
    ;

    /// Buffered analog write; the second value is the samples written per channel.
    fn write_analog(
        &self,
        handle: &Self::Handle,
        samples_per_channel: i32,
        auto_start: bool,
        timeout: &Timeout<Self::Real>,
        fill_mode: u32,
        buffer: &[Self::Real],
    ) -> (i32, i32)
        requires
            is_write_layout(buffer@.len(), samples_per_channel),
    ;

    /// Buffered digital write, one byte per line; the second value is the samples written per channel.
    fn write_digital_lines(
        &self,
        handle: &Self::Handle,
        samples_per_channel: i32,
        auto_start: bool,
        timeout: &Timeout<Self::Real>,
        fill_mode: u32,
        buffer: &[u8],
    ) -> (i32, i32)
        requires
            is_write_layout(buffer@.len(), samples_per_channel),
    ;

    fn read_analog_scalar(&self, handle: &Self::Handle, timeout: &Timeout<Self::Real>) -> (i32, Self::Real);

    fn write_analog_scalar(
        &self,
        handle: &Self::Handle,
        auto_start: bool,
        timeout: &Timeout<Self::Real>,
        value: Self::Real,
    ) -> i32;

    fn read_digital_scalar(&self, handle: &Self::Handle, timeout: &Timeout<Self::Real>) -> (i32, u32);

    fn write_digital_scalar(
        &self,
        handle: &Self::Handle,
        auto_start: bool,
        timeout: &Timeout<Self::Real>,
        value: u32,
    ) -> i32;

    fn read_counter_scalar_count(&self, handle: &Self::Handle, timeout: &Timeout<Self::Real>) -> (i32, u32);

    fn read_counter_scalar_real(&self, handle: &Self::Handle, timeout: &Timeout<Self::Real>) -> (i32, Self::Real);
}

/// A buffer of `len` samples may be written with `samples_per_channel`: the
/// buffer is not empty, and the count is either "all" (`-1`) or a positive
/// number that splits the buffer into whole channels.
pub open spec fn is_write_layout(len: nat, samples_per_channel: i32) -> bool {
    &&& len > 0
    &&& (samples_per_channel == -1 || (samples_per_channel > 0 && len % (samples_per_channel as nat) == 0))
}

} // verus!
