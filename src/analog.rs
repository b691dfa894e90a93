//! Analog input and analog output tasks.

use vstd::prelude::*;
use crate::channels::{AnalogChannelBuilderTrait, AnalogChannelTrait, ChannelBuilderInput, ChannelBuilderOutput};
use crate::driver::Driver;
use crate::error::{with_status, DaqmxError};
use crate::io::{DAQmxInput, DAQmxOutput, InputTask, OutputTask};
use crate::task::{attached_count, is_nul_error, AnalogInput, AnalogOutput, Task};
use crate::text::has_nul;
use crate::types::Timeout;

verus! {

impl<D: Driver> Task<AnalogInput, D> {
    /// Attaches an analog input channel to the task.
    pub fn create_channel<B: AnalogChannelBuilderTrait + ChannelBuilderInput<D>>(&mut self, builder: B) -> (r: Result<(), DaqmxError>)
        requires
            old(self).channels() < u32::MAX,
        ensures
            final(self).channels() == attached_count(old(self).channels(), r is Ok),
    {
        builder.add_to_task(self.driver(), self.raw_handle())?;
        self.count_channel();
        Ok(())
    }

    /// An accessor for the attached channel called `name`.
    pub fn get_channel<C: AnalogChannelTrait<AnalogInput, D>>(&self, name: &str) -> (r: Result<C, DaqmxError>)
        ensures
            r is Ok <==> !has_nul(name),
            r matches Err(e) ==> is_nul_error(e),
    {
        C::new(self.clone(), name)
    }
}

impl<D: Driver> DAQmxInput<D::Real> for Task<AnalogInput, D> {
    type Seconds = D::Real;

    fn daqmx_read(
        &mut self,
        samples_per_channel: i32,
        timeout: &Timeout<D::Real>,
        fill_mode: u32,
        buffer: &mut [D::Real],
        buffer_size: u32,
    ) -> (i32, i32) {
        self.driver().read_analog(self.raw_handle(), samples_per_channel, timeout, fill_mode, buffer, buffer_size)
    }
}

impl<D: Driver> InputTask<D::Real> for Task<AnalogInput, D> {
    fn read_scalar(&mut self, timeout: Timeout<D::Real>) -> (r: Result<D::Real, DaqmxError>) {
        let (code, value) = self.driver().read_analog_scalar(self.raw_handle(), &timeout);
        with_status(self.driver(), code, value)
    }
}

impl<D: Driver> Task<AnalogOutput, D> {
    /// Attaches an analog output channel to the task.
    pub fn create_channel<B: AnalogChannelBuilderTrait + ChannelBuilderOutput<D>>(&mut self, builder: B) -> (r: Result<(), DaqmxError>)
        requires
            old(self).channels() < u32::MAX,
        ensures
            final(self).channels() == attached_count(old(self).channels(), r is Ok),
    {
        builder.add_to_task(self.driver(), self.raw_handle())?;
        self.count_channel();
        Ok(())
    }

    /// An accessor for the attached channel called `name`.
    pub fn get_channel<C: AnalogChannelTrait<AnalogOutput, D>>(&self, name: &str) -> (r: Result<C, DaqmxError>)
        ensures
            r is Ok <==> !has_nul(name),
            r matches Err(e) ==> is_nul_error(e),
    {
        C::new(self.clone(), name)
    }
}

impl<D: Driver> DAQmxOutput<D::Real> for Task<AnalogOutput, D> {
    type Seconds = D::Real;

    fn daqmx_write(
        &mut self,
        samples_per_channel: i32,
        timeout: &Timeout<D::Real>,
        fill_mode: u32,
        buffer: &[D::Real],
    ) -> (i32, i32) {
        self.driver().write_analog(self.raw_handle(), samples_per_channel, true, timeout, fill_mode, buffer)
    }
}

impl<D: Driver> OutputTask<D::Real> for Task<AnalogOutput, D> {
    fn write_scalar(&mut self, value: D::Real, timeout: Timeout<D::Real>) -> (r: Result<(), DaqmxError>) {
        let code = self.driver().write_analog_scalar(self.raw_handle(), true, &timeout, value);
        self.check(code)
    }
}

} // verus!
