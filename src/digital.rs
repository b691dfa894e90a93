//! Digital input and digital output tasks.

use vstd::prelude::*;
use crate::channels::{ChannelBuilderInput, ChannelBuilderOutput, DigitalChannelBuilderTrait, DigitalChannelTrait};
use crate::driver::Driver;
use crate::error::{with_status, DaqmxError};
use crate::io::{bools_from_lines, line_byte, line_set, DAQmxInput, DAQmxOutput, InputTask, OutputTask};
use crate::task::{attached_count, is_nul_error, DigitalInput, DigitalOutput, Task};
use crate::text::has_nul;
use crate::types::Timeout;

verus! {

impl<D: Driver> Task<DigitalInput, D> {
    /// Attaches a digital input channel to the task.
    pub fn create_channel<B: DigitalChannelBuilderTrait + ChannelBuilderInput<D>>(&mut self, builder: B) -> (r: Result<(), DaqmxError>)
        requires
            old(self).channels() < u32::MAX,
        ensures
            final(self).channels() == attached_count(old(self).channels(), r is Ok),
    {
        builder.add_to_task(self.driver(), self.raw_handle())?;
        self.count_channel();
        Ok(())
    }

    /// An accessor for the attached channel called `name`.
    pub fn get_channel<C: DigitalChannelTrait<DigitalInput, D>>(&self, name: &str) -> (r: Result<C, DaqmxError>)
        ensures
            r is Ok <==> !has_nul(name),
            r matches Err(e) ==> is_nul_error(e),
    {
        C::new(self.clone(), name)
    }
}

impl<D: Driver> DAQmxInput<u8> for Task<DigitalInput, D> {
    type Seconds = D::Real;

    fn daqmx_read(
        &mut self,
        samples_per_channel: i32,
        timeout: &Timeout<D::Real>,
        fill_mode: u32,
        buffer: &mut [u8],
        buffer_size: u32,
    ) -> (i32, i32) {
        self.driver().read_digital_lines(self.raw_handle(), samples_per_channel, timeout, fill_mode, buffer, buffer_size)
    }
}

impl<D: Driver> InputTask<u8> for Task<DigitalInput, D> {
    /// Reads the lines of the channel as one value; only its low eight bits are kept.
    fn read_scalar(&mut self, timeout: Timeout<D::Real>) -> (r: Result<u8, DaqmxError>) {
        let (code, value) = self.driver().read_digital_scalar(self.raw_handle(), &timeout);
        with_status(self.driver(), code, line_byte(value))
    }
}

impl<D: Driver> DAQmxInput<bool> for Task<DigitalInput, D> {
    type Seconds = D::Real;

    /// See [`read_lines_as_bools`].
    fn daqmx_read(
        &mut self,
        samples_per_channel: i32,
        timeout: &Timeout<D::Real>,
        fill_mode: u32,
        buffer: &mut [bool],
        buffer_size: u32,
    ) -> (r: (i32, i32))
        ensures
            final(buffer)@.len() == old(buffer)@.len(),
            r.0 < 0 ==> final(buffer)@ == old(buffer)@,
    {
        read_lines_as_bools(self.driver(), self.raw_handle(), samples_per_channel, timeout, fill_mode, buffer, buffer_size)
    }
}

/// A buffered digital read into booleans. The driver reads lines as bytes:
/// they land in a scratch buffer of the same length as `buffer`, and are
/// converted into `buffer` (see [`bools_from_lines`]) only when the read
/// succeeded. Returns the driver's status and samples read per channel.
pub fn read_lines_as_bools<D: Driver>(
    driver: &D,
    handle: &D::Handle,
    samples_per_channel: i32,
    timeout: &Timeout<D::Real>,
    fill_mode: u32,
    buffer: &mut [bool],
    buffer_size: u32,
) -> (r: (i32, i32))
    requires
        buffer_size <= old(buffer)@.len(),
    ensures
        final(buffer)@.len() == old(buffer)@.len(),
        r.0 < 0 ==> final(buffer)@ == old(buffer)@,
{
    let mut lines: Vec<u8> = vec![0u8; buffer.len()];
    let (code, actual) = driver.read_digital_lines(
        handle,
        samples_per_channel,
        timeout,
        fill_mode,
        lines.as_mut_slice(),
        buffer_size,
    );
    if lines.len() == buffer.len() {
        bools_from_lines(code, lines.as_slice(), buffer);
    }
    (code, actual)
}

impl<D: Driver> InputTask<bool> for Task<DigitalInput, D> {
    /// Reads the lines of the channel: true when any line is set.
    fn read_scalar(&mut self, timeout: Timeout<D::Real>) -> (r: Result<bool, DaqmxError>) {
        let (code, value) = self.driver().read_digital_scalar(self.raw_handle(), &timeout);
        with_status(self.driver(), code, line_set(value))
    }
}

impl<D: Driver> Task<DigitalOutput, D> {
    /// Attaches a digital output channel to the task.
    pub fn create_channel<B: DigitalChannelBuilderTrait + ChannelBuilderOutput<D>>(&mut self, builder: B) -> (r: Result<(), DaqmxError>)
        requires
            old(self).channels() < u32::MAX,
        ensures
            final(self).channels() == attached_count(old(self).channels(), r is Ok),
    {
        builder.add_to_task(self.driver(), self.raw_handle())?;
        self.count_channel();
        Ok(())
    }

    /// An accessor for the attached channel called `name`.
    pub fn get_channel<C: DigitalChannelTrait<DigitalOutput, D>>(&self, name: &str) -> (r: Result<C, DaqmxError>)
        ensures
            r is Ok <==> !has_nul(name),
            r matches Err(e) ==> is_nul_error(e),
    {
        C::new(self.clone(), name)
    }
}

impl<D: Driver> DAQmxOutput<u8> for Task<DigitalOutput, D> {
    type Seconds = D::Real;

    fn daqmx_write(
        &mut self,
        samples_per_channel: i32,
        timeout: &Timeout<D::Real>,
        fill_mode: u32,
        buffer: &[u8],
    ) -> (i32, i32) {
        self.driver().write_digital_lines(self.raw_handle(), samples_per_channel, true, timeout, fill_mode, buffer)
    }
}

impl<D: Driver> OutputTask<u8> for Task<DigitalOutput, D> {
    fn write_scalar(&mut self, value: u8, timeout: Timeout<D::Real>) -> (r: Result<(), DaqmxError>) {
        let code = self.driver().write_digital_scalar(self.raw_handle(), true, &timeout, value as u32);
        self.check(code)
    }
}

} // verus!
