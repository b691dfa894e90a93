//! Counter input and counter output tasks.
//!
//! Counter-generated pulses are hardware timed, and are preferred over
//! software-timed digital outputs for deterministic triggering.

use vstd::prelude::*;
use crate::channels::{ChannelBuilderInput, ChannelBuilderOutput, CounterChannelBuilderTrait, CounterChannelTrait};
use crate::driver::Driver;
use crate::error::{with_status, DaqmxError};
use crate::task::{attached_count, is_driver_error, is_nul_error, CounterInput, CounterOutput, Task};
use crate::text::{check_c_string, has_nul};
use crate::types::{ExportSignal, SampleMode, Timeout};

verus! {

/// Counter output operations.
pub trait CounterOutputTask {
    /// Configures implicit timing for pulse generation.
    fn configure_implicit_timing(&mut self, mode: SampleMode, samples_per_channel: u64) -> (r: Result<(), DaqmxError>)
        ensures
            r matches Err(e) ==> is_driver_error(e),
    ;

    /// Starts a prepared pulse generation.
    fn start_pulse(&mut self) -> (r: Result<(), DaqmxError>)
        ensures
            r matches Err(e) ==> is_driver_error(e),
    ;
}

/// Counter input operations: edge counts and period measurements.
pub trait CounterInputTask {
    /// The driver's real-number type.
    type Real;

    /// Reads the current edge count.
    fn read_count_scalar(&mut self, timeout: Timeout<Self::Real>) -> (r: Result<u32, DaqmxError>)
        ensures
            r matches Err(e) ==> is_driver_error(e),
    ;

    /// Reads one period measurement, in seconds.
    fn read_period_scalar(&mut self, timeout: Timeout<Self::Real>) -> (r: Result<Self::Real, DaqmxError>)
        ensures
            r matches Err(e) ==> is_driver_error(e),
    ;
}

impl<D: Driver> Task<CounterOutput, D> {
    /// Attaches a counter output channel to the task.
    pub fn create_channel<B: CounterChannelBuilderTrait + ChannelBuilderOutput<D>>(&mut self, builder: B) -> (r: Result<(), DaqmxError>)
        requires
            old(self).channels() < u32::MAX,
        ensures
            final(self).channels() == attached_count(old(self).channels(), r is Ok),
    {
        builder.add_to_task(self.driver(), self.raw_handle())?;
        self.count_channel();
        Ok(())
    }

    /// An accessor for the attached channel called `name`.
    pub fn get_channel<C: CounterChannelTrait<CounterOutput, D>>(&self, name: &str) -> (r: Result<C, DaqmxError>)
        ensures
            r is Ok <==> !has_nul(name),
            r matches Err(e) ==> is_nul_error(e),
    {
        C::new(self.clone(), name)
    }

    /// Exports the counter output event to a terminal such as `"/Dev1/PFI0"`.
    pub fn export_counter_output_event_to(&mut self, terminal: &str) -> (r: Result<(), DaqmxError>)
        ensures
            final(self).channels() == old(self).channels(),
            has_nul(terminal) <==> (r matches Err(e) && is_nul_error(e)),
            r matches Err(e) ==> is_nul_error(e) || is_driver_error(e),
    {
        self.export_signal(ExportSignal::CounterOutputEvent, terminal)
    }

    /// Sets the pulse output terminal of every counter output channel of the task.
    pub fn set_counter_output_terminal(&mut self, terminal: &str) -> (r: Result<(), DaqmxError>)
        ensures
            final(self).channels() == old(self).channels(),
            has_nul(terminal) <==> (r matches Err(e) && is_nul_error(e)),
            r matches Err(e) ==> is_nul_error(e) || is_driver_error(e),
    {
        check_c_string(terminal)?;
        let code = self.driver().set_co_pulse_term(self.raw_handle(), "", terminal);
        self.check(code)
    }

    /// Sets the pulse output terminal of one counter output channel of the task.
    pub fn set_counter_output_terminal_for_channel(&mut self, channel_name: &str, terminal: &str) -> (r: Result<(), DaqmxError>)
        ensures
            final(self).channels() == old(self).channels(),
            (has_nul(channel_name) || has_nul(terminal)) <==> (r matches Err(e) && is_nul_error(e)),
            r matches Err(e) ==> is_nul_error(e) || is_driver_error(e),
    {
        check_c_string(channel_name)?;
        check_c_string(terminal)?;
        let code = self.driver().set_co_pulse_term(self.raw_handle(), channel_name, terminal);
        self.check(code)
    }
}

impl<D: Driver> CounterOutputTask for Task<CounterOutput, D> {
    fn configure_implicit_timing(&mut self, mode: SampleMode, samples_per_channel: u64) -> (r: Result<(), DaqmxError>) {
        let code = self.driver().cfg_implicit_timing(self.raw_handle(), i32::from(mode), samples_per_channel);
        self.check(code)
    }

    fn start_pulse(&mut self) -> (r: Result<(), DaqmxError>) {
        self.start()
    }
}

impl<D: Driver> Task<CounterInput, D> {
    /// Attaches a counter input channel to the task.
    pub fn create_channel<B: CounterChannelBuilderTrait + ChannelBuilderInput<D>>(&mut self, builder: B) -> (r: Result<(), DaqmxError>)
        requires
            old(self).channels() < u32::MAX,
        ensures
            final(self).channels() == attached_count(old(self).channels(), r is Ok),
    {
        builder.add_to_task(self.driver(), self.raw_handle())?;
        self.count_channel();
        Ok(())
    }

    /// An accessor for the attached channel called `name`.
    pub fn get_channel<C: CounterChannelTrait<CounterInput, D>>(&self, name: &str) -> (r: Result<C, DaqmxError>)
        ensures
            r is Ok <==> !has_nul(name),
            r matches Err(e) ==> is_nul_error(e),
    {
        C::new(self.clone(), name)
    }
}

impl<D: Driver> CounterInputTask for Task<CounterInput, D> {
    type Real = D::Real;

    fn read_count_scalar(&mut self, timeout: Timeout<D::Real>) -> (r: Result<u32, DaqmxError>) {
        let (code, value) = self.driver().read_counter_scalar_count(self.raw_handle(), &timeout);
        with_status(self.driver(), code, value)
    }

    fn read_period_scalar(&mut self, timeout: Timeout<D::Real>) -> (r: Result<D::Real, DaqmxError>) {
        let (code, value) = self.driver().read_counter_scalar_real(self.raw_handle(), &timeout);
        with_status(self.driver(), code, value)
    }
}

} // verus!
