//! The generic read and write contract, built once and shared by every task kind.
//!
//! Each kind supplies only the low-level driver call (`DAQmxInput` /
//! `DAQmxOutput`); the checks on the buffer, the conversion of the sample
//! count and the classification of the status code live here.

use vstd::prelude::*;
use crate::driver::{is_write_layout, ErrorText};
use crate::error::{handle_error, is_fatal_error_for, DaqmxError};
use crate::task::is_driver_error;
use crate::types::{DataFillMode, Timeout};

verus! {

/// The sample count handed to the driver: the requested count, saturated at
/// the largest count the driver takes, or `-1` ("everything available", or
/// for a finite task "the whole acquisition").
pub fn requested_samples(samples_per_channel: Option<u32>) -> (r: i32)
    ensures
        r == (match samples_per_channel {
            Some(n) => if n <= i32::MAX { n as i32 } else { i32::MAX },
            None => -1i32,
        }),
{
    match samples_per_channel {
        Some(n) => if n <= 2147483647 { n as i32 } else { 2147483647 },
        None => -1,
    }
}

/// The buffer length handed to the driver: the true length, saturated at the
/// largest count the driver can take. Handing over fewer elements than the
/// buffer holds is always safe.
pub fn clamp_buffer_len(len: usize) -> (r: u32)
    ensures
        r as int == (if len <= u32::MAX { len as int } else { u32::MAX as int }),
        r <= len,
{
    if len <= 4294967295 {
        len as u32
    } else {
        4294967295
    }
}

/// A write of `len` samples may ask for `samples_per_channel`: any count
/// ("all") when none is given, else a positive count that fits the driver's
/// signed count and splits the buffer into whole channels.
pub open spec fn splits_into_channels(len: nat, samples_per_channel: Option<u32>) -> bool {
    match samples_per_channel {
        None => true,
        Some(n) => 0 < n <= i32::MAX && len % (n as nat) == 0,
    }
}

/// The sample count for a write of `len` samples, or why the write is refused.
///
/// An empty buffer has nothing to write. A requested count must be positive,
/// fit the driver's signed count, and split the buffer into whole channels.
pub fn write_request(len: usize, samples_per_channel: Option<u32>) -> (r: Result<i32, DaqmxError>)
    ensures
        len == 0 ==> r == Err::<i32, DaqmxError>(DaqmxError::EmptyWriteBuffer),
        len > 0 && samples_per_channel is None ==> r == Ok::<i32, DaqmxError>(-1i32),
        len > 0 ==> (samples_per_channel matches Some(n) ==> r == (if splits_into_channels(
            len as nat,
            samples_per_channel,
        ) {
            Ok::<i32, DaqmxError>(n as i32)
        } else {
            Err::<i32, DaqmxError>(DaqmxError::SampleCountMismatch)
        })),
        r matches Ok(s) ==> is_write_layout(len as nat, s),
{
    if len == 0 {
        return Err(DaqmxError::EmptyWriteBuffer);
    }
    match samples_per_channel {
        None => Ok(-1),
        Some(n) => {
            if n > 0 && n <= 2147483647 && len % (n as usize) == 0 {
                Ok(n as i32)
            } else {
                Err(DaqmxError::SampleCountMismatch)
            }
        },
    }
}

/// The result of a buffered transfer: the samples per channel that the driver
/// reports, unless its status code is fatal.
pub fn transfer_result<E: ErrorText + ?Sized>(source: &E, code: i32, actual: i32) -> (r: Result<i32, DaqmxError>)
    ensures
        code >= 0 ==> r == Ok::<i32, DaqmxError>(actual),
        code < 0 ==> (r matches Err(e) && is_fatal_error_for(e, code)),
{
    handle_error(source, code)?;
    Ok(actual)
}

/// The low-level read of one task kind and sample type.
pub trait DAQmxInput<T>: ErrorText {
    /// The number type of a timeout in seconds.
    type Seconds;

    /// Calls the driver's read. The driver writes at most `buffer_size`
    /// samples; the second value is the samples read per channel.
    fn daqmx_read(
        &mut self,
        samples_per_channel: i32,
        timeout: &Timeout<Self::Seconds>,
        fill_mode: u32,
        buffer: &mut [T],
        buffer_size: u32,
    ) -> (i32, i32)
        requires
            buffer_size <= old(buffer)@.len(),
    ;
}

/// Reading from an input task.
pub trait InputTask<T>: DAQmxInput<T> {
    /// Reads one sample from the task.
    fn read_scalar(&mut self, timeout: Timeout<Self::Seconds>) -> (r: Result<T, DaqmxError>)
        ensures
            r matches Err(e) ==> is_driver_error(e),
    ;

    /// Reads samples of one or more channels into `buffer`, laid out as
    /// `fill_mode` says, and returns the samples read per channel.
    ///
    /// `None` reads everything available (continuous task) or waits for the
    /// whole acquisition (finite task). An empty buffer is refused before the
    /// driver is called; a buffer longer than the driver can address is
    /// handed over with a saturated length.
    fn read(
        &mut self,
        timeout: Timeout<Self::Seconds>,
        fill_mode: DataFillMode,
        samples_per_channel: Option<u32>,
        buffer: &mut [T],
    ) -> (r: Result<i32, DaqmxError>)
        ensures
            r == Err::<i32, DaqmxError>(DaqmxError::EmptyReadBuffer) <==> old(buffer)@.len() == 0,
            old(buffer)@.len() == 0 ==> final(buffer)@ == old(buffer)@,
            old(buffer)@.len() > 0 ==> (r matches Err(e) ==> is_driver_error(e)),
    {
        if buffer.len() == 0 {
            return Err(DaqmxError::EmptyReadBuffer);
        }
        let requested = requested_samples(samples_per_channel);
        let size = clamp_buffer_len(buffer.len());
        let (code, actual) = self.daqmx_read(requested, &timeout, fill_mode.code(), buffer, size);
        transfer_result(self, code, actual)
    }
}

/// The low-level write of one task kind and sample type.
pub trait DAQmxOutput<T>: ErrorText {
    /// The number type of a timeout in seconds.
    type Seconds;

    /// Calls the driver's write; the second value is the samples written per channel.
    fn daqmx_write(
        &mut self,
        samples_per_channel: i32,
        timeout: &Timeout<Self::Seconds>,
        fill_mode: u32,
        buffer: &[T],
    ) -> (i32, i32)
        requires
            is_write_layout(buffer@.len(), samples_per_channel),
    ;
}

/// Writing to an output task.
pub trait OutputTask<T>: DAQmxOutput<T> {
    /// Writes one sample to the task.
    fn write_scalar(&mut self, value: T, timeout: Timeout<Self::Seconds>) -> (r: Result<(), DaqmxError>)
        ensures
            r matches Err(e) ==> is_driver_error(e),
    ;

    /// Writes the samples of one or more channels from `buffer`, laid out as
    /// `fill_mode` says, and returns the samples written per channel.
    ///
    /// An empty buffer, or a requested count that does not split the buffer
    /// into whole channels, is refused before the driver is called.
    fn write(
        &mut self,
        timeout: Timeout<Self::Seconds>,
        fill_mode: DataFillMode,
        samples_per_channel: Option<u32>,
        buffer: &[T],
    ) -> (r: Result<i32, DaqmxError>)
        ensures
            r == Err::<i32, DaqmxError>(DaqmxError::EmptyWriteBuffer) <==> buffer@.len() == 0,
            r == Err::<i32, DaqmxError>(DaqmxError::SampleCountMismatch) <==> (buffer@.len() > 0
                && !splits_into_channels(buffer@.len(), samples_per_channel)),
            buffer@.len() > 0 && splits_into_channels(buffer@.len(), samples_per_channel) ==> (r matches Err(e)
                ==> is_driver_error(e)),
    {
        let requested = write_request(buffer.len(), samples_per_channel)?;
        let (code, actual) = self.daqmx_write(requested, &timeout, fill_mode.code(), buffer);
        transfer_result(self, code, actual)
    }
}

/// The value of a digital scalar read as one byte: its low eight bits.
pub fn line_byte(value: u32) -> (r: u8)
    ensures
        r == value as u8,
{
    value as u8
}

/// The value of a digital scalar read as one boolean: set when any line is set.
pub fn line_set(value: u32) -> (r: bool)
    ensures
        r == (value != 0),
{
    value != 0
}

/// Fills `buffer` from the line bytes of a digital read that returned status
/// `code`: only when the read succeeded, and then each element is set when
/// its line byte is not zero. On failure `buffer` is left as it was.
pub fn bools_from_lines(code: i32, lines: &[u8], buffer: &mut [bool])
    requires
        lines@.len() == old(buffer)@.len(),
    ensures
        final(buffer)@.len() == old(buffer)@.len(),
        code < 0 ==> final(buffer)@ == old(buffer)@,
        code >= 0 ==> forall|i: int| 0 <= i < lines@.len() ==> final(buffer)@[i] == (lines@[i] != 0),
{
    if code >= 0 {
        lines_to_bools(lines, buffer);
    }
}

/// Converts driver line values (one byte per line) into booleans: a line is
/// set when its byte is not zero.
pub fn lines_to_bools(lines: &[u8], out: &mut [bool])
    requires
        lines@.len() == old(out)@.len(),
    ensures
        final(out)@.len() == lines@.len(),
        forall|i: int| 0 <= i < lines@.len() ==> final(out)@[i] == (lines@[i] != 0),
{
    let n = lines.len();
    let mut i: usize = 0;
    while i < n
        invariant
            n == lines@.len(),
            out@.len() == n,
            0 <= i <= n,
            forall|j: int| 0 <= j < i ==> out@[j] == (lines@[j] != 0),
        decreases n - i,
    {
        out[i] = lines[i] != 0;
        i = i + 1;
    }
}

} // verus!
