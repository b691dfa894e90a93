//! The task: one native driver handle, shared by cheap clones, tagged at
//! compile time with its direction and signal kind.

use vstd::prelude::*;
use std::marker::PhantomData;
use std::sync::Arc;
use vstd::string::StringSliceAdditionalSpecFns;
use crate::constants::ONBOARD_CLOCK;
use crate::channels::read_task_name;
use crate::driver::{Driver, ErrorText};
use crate::error::{handle_error, is_fatal_error_for, DaqmxError};
use crate::text::{check_c_string, has_nul};
use crate::types::{ClockEdge, ExportSignal, SampleMode, Timeout};

verus! {

/// Marker type for an analog input task.
#[derive(Clone, Copy, Debug)]
pub struct AnalogInput;

/// Marker type for an analog output task.
#[derive(Clone, Copy, Debug)]
pub struct AnalogOutput;

/// Marker type for a digital input task.
#[derive(Clone, Copy, Debug)]
pub struct DigitalInput;

/// Marker type for a digital output task.
#[derive(Clone, Copy, Debug)]
pub struct DigitalOutput;

/// Marker type for a counter input task.
#[derive(Clone, Copy, Debug)]
pub struct CounterInput;

/// Marker type for a counter output task.
#[derive(Clone, Copy, Debug)]
pub struct CounterOutput;

/// The single owner of one native task handle, and the driver it belongs to.
///
/// It is never copied: every clone of a task shares it through an `Arc`, so
/// the handle is released exactly once, when the last clone is dropped.
pub struct TaskHandle<D: Driver> {
    driver: D,
    raw: D::Handle,
}

/// `e` comes from the driver's status code: a fatal driver error with a
/// negative code, or a description that could not be decoded.
pub open spec fn is_driver_error(e: DaqmxError) -> bool {
    ||| (e matches DaqmxError::DaqmxError(c, _) && c < 0)
    ||| e == DaqmxError::Utf8Error
}

/// `e` is the rejection of a string that holds a NUL byte.
pub open spec fn is_nul_error(e: DaqmxError) -> bool {
    e is CStringError
}

/// A driver task of kind `K` (one of the marker types).
///
/// The kind is never stored: it selects at compile time which channels,
/// accessors and reads or writes the task offers. The channel count only
/// grows.
pub struct Task<K, D: Driver> {
    handle: Arc<TaskHandle<D>>,
    channel_type: PhantomData<K>,
    channel_count: u32,
}

impl<K, D: Driver> Clone for Task<K, D> {
    /// Another reference to the same driver task.
    fn clone(&self) -> (r: Self)
        ensures
            r.channels() == self.channels(),
    {
        Task { handle: Arc::clone(&self.handle), channel_type: PhantomData, channel_count: self.channel_count }
    }
}

impl<K, D: Driver> ErrorText for Task<K, D> {
    fn get_extended_error_info(&self, buffer: &mut [i8]) -> i32 {
        self.handle.driver.get_extended_error_info(buffer)
    }

    fn get_error_string(&self, code: i32, buffer: &mut [i8]) -> i32 {
        self.handle.driver.get_error_string(code, buffer)
    }

    fn report_warning(&self, code: i32, message: &str) {
        self.handle.driver.report_warning(code, message)
    }
}

impl<K, D: Driver> Task<K, D> {
    /// The number of channels attached so far.
    pub closed spec fn channels(&self) -> nat {
        self.channel_count as nat
    }

    /// The number of channels attached so far.
    pub fn channel_count(&self) -> (r: u32)
        ensures
            r == self.channels(),
    {
        self.channel_count
    }

    /// The driver behind the handle.
    pub fn driver(&self) -> &D {
        &self.handle.driver
    }

    /// The native handle, for immediate use in a driver call.
    pub fn raw_handle(&self) -> &D::Handle {
        &self.handle.raw
    }

    /// Creates a task in the driver. An empty name lets the driver pick one.
    ///
    /// A name with a NUL byte is refused before the driver is called.
    pub fn new(driver: D, name: &str) -> (r: Result<Self, DaqmxError>)
        ensures
            has_nul(name) <==> (r matches Err(e) && is_nul_error(e)),
            r matches Ok(t) ==> t.channels() == 0,
            r matches Err(e) ==> is_nul_error(e) || is_driver_error(e) || e == DaqmxError::MissingHandle,
    {
        check_c_string(name)?;
        let (code, raw) = driver.create_task(name);
        Self::from_creation(driver, code, raw)
    }

    /// The task that the driver's answer to a creation request gives: its
    /// status `code` and the handle it handed out, if any.
    pub fn from_creation(driver: D, code: i32, raw: Option<D::Handle>) -> (r: Result<Self, DaqmxError>)
        ensures
            code < 0 ==> (r matches Err(e) && is_fatal_error_for(e, code)),
            code >= 0 && raw is None ==> r == Err::<Self, DaqmxError>(DaqmxError::MissingHandle),
            code >= 0 && raw is Some ==> (r matches Ok(t) && t.channels() == 0),
    {
        handle_error(&driver, code)?;
        match raw {
            Some(raw) => Ok(Task {
                handle: Arc::new(TaskHandle { driver, raw }),
                channel_type: PhantomData,
                channel_count: 0,
            }),
            None => Err(DaqmxError::MissingHandle),
        }
    }

    /// Classifies a status code that the driver returned for a call on the handle.
    pub fn check(&self, code: i32) -> (r: Result<(), DaqmxError>)
        ensures
            r is Ok <==> code >= 0,
            r matches Err(e) ==> is_driver_error(e) && (e matches DaqmxError::DaqmxError(c, _) ==> c == code),
    {
        handle_error(self.driver(), code)
    }

    /// The name the driver gave the task (useful when it was created without one).
    pub fn name(&mut self) -> (r: Result<String, DaqmxError>)
        ensures
            final(self).channels() == old(self).channels(),
            r matches Err(e) ==> is_driver_error(e) || e == DaqmxError::StringPropertyLengthChanged,
            r matches Ok(s) ==> !s@.contains('\0') && s@.len() <= i32::MAX,
    {
        read_task_name(self.driver(), self.raw_handle())
    }

    /// Configures hardware timing by a sample clock.
    ///
    /// Without a `source` the onboard clock is used. For a continuous task,
    /// `samples_per_channel` sets the size of the driver's buffer.
    pub fn configure_sample_clock_timing(
        &mut self,
        source: Option<&str>,
        rate: D::Real,
        edge: ClockEdge,
        mode: SampleMode,
        samples_per_channel: u64,
    ) -> (r: Result<(), DaqmxError>)
        ensures
            final(self).channels() == old(self).channels(),
            (source matches Some(s) && has_nul(s)) <==> (r matches Err(e) && is_nul_error(e)),
            r matches Err(e) ==> is_nul_error(e) || is_driver_error(e),
    {
        let source_name = clock_source(source);
        proof {
            lemma_onboard_clock_has_no_nul();
        }
        check_c_string(source_name)?;
        let code = self.driver().cfg_samp_clk_timing(
            self.raw_handle(),
            source_name,
            &rate,
            i32::from(edge),
            i32::from(mode),
            samples_per_channel,
        );
        self.check(code)
    }

    /// Moves the task to the running state, which begins measurement or generation.
    pub fn start(&mut self) -> (r: Result<(), DaqmxError>)
        ensures
            final(self).channels() == old(self).channels(),
            r matches Err(e) ==> is_driver_error(e),
    {
        let code = self.driver().start_task(self.raw_handle());
        self.check(code)
    }

    /// Stops the task and returns it to the state it had before it was started.
    /// Reads and writes in flight on its clones then fail.
    pub fn stop(&mut self) -> (r: Result<(), DaqmxError>)
        ensures
            final(self).channels() == old(self).channels(),
            r matches Err(e) ==> is_driver_error(e),
    {
        let code = self.driver().stop_task(self.raw_handle());
        self.check(code)
    }

    /// Waits until a finite measurement or generation completes, or the timeout elapses.
    pub fn wait_until_done(&mut self, timeout: Timeout<D::Real>) -> (r: Result<(), DaqmxError>)
        ensures
            final(self).channels() == old(self).channels(),
            r matches Err(e) ==> is_driver_error(e),
    {
        let code = self.driver().wait_until_task_done(self.raw_handle(), &timeout);
        self.check(code)
    }

    /// Whether a read starts the task by itself.
    pub fn read_auto_start(&mut self) -> (r: Result<bool, DaqmxError>)
        ensures
            final(self).channels() == old(self).channels(),
            r matches Err(e) ==> is_driver_error(e),
    {
        let (code, value) = self.driver().get_read_auto_start(self.raw_handle());
        auto_start_result(self.driver(), code, value)
    }

    /// Sets whether a read starts the task by itself.
    pub fn set_read_auto_start(&mut self, value: bool) -> (r: Result<(), DaqmxError>)
        ensures
            final(self).channels() == old(self).channels(),
            r matches Err(e) ==> is_driver_error(e),
    {
        let code = self.driver().set_read_auto_start(self.raw_handle(), bool32(value));
        self.check(code)
    }

    /// Starts the task on an edge of a digital signal.
    pub fn configure_trigger(&mut self, source: &str, edge: ClockEdge) -> (r: Result<(), DaqmxError>)
        ensures
            final(self).channels() == old(self).channels(),
            has_nul(source) <==> (r matches Err(e) && is_nul_error(e)),
            r matches Err(e) ==> is_nul_error(e) || is_driver_error(e),
    {
        check_c_string(source)?;
        let code = self.driver().cfg_dig_edge_start_trig(self.raw_handle(), source, i32::from(edge));
        self.check(code)
    }

    /// Routes one of the task's signals to a terminal such as `"/Dev1/PFI0"`.
    pub fn export_signal(&mut self, signal: ExportSignal, terminal: &str) -> (r: Result<(), DaqmxError>)
        ensures
            final(self).channels() == old(self).channels(),
            has_nul(terminal) <==> (r matches Err(e) && is_nul_error(e)),
            r matches Err(e) ==> is_nul_error(e) || is_driver_error(e),
    {
        check_c_string(terminal)?;
        let code = self.driver().export_signal(self.raw_handle(), i32::from(signal), terminal);
        self.check(code)
    }

    /// Records one more attached channel.
    pub(crate) fn count_channel(&mut self)
        requires
            old(self).channels() < u32::MAX,
        ensures
            final(self).channels() == old(self).channels() + 1,
    {
        self.channel_count = self.channel_count + 1;
    }
}

/// The clock source handed to the driver: the given one, or the onboard clock.
pub fn clock_source<'a>(source: Option<&'a str>) -> (r: &'a str)
    ensures
        source matches Some(s) ==> r@ == s@,
        source is None ==> r@ == ONBOARD_CLOCK@,
{
    match source {
        Some(name) => name,
        None => ONBOARD_CLOCK,
    }
}

/// The "read starts the task" flag from the driver's answer: its status
/// `code` and the driver boolean `value` (zero is false).
pub fn auto_start_result<E: ErrorText + ?Sized>(source: &E, code: i32, value: u32) -> (r: Result<bool, DaqmxError>)
    ensures
        code >= 0 ==> r == Ok::<bool, DaqmxError>(value != 0),
        code < 0 ==> (r matches Err(e) && is_fatal_error_for(e, code)),
{
    handle_error(source, code)?;
    Ok(value != 0)
}

/// The onboard clock's name can be handed to the driver.
proof fn lemma_onboard_clock_has_no_nul()
    ensures
        !has_nul(ONBOARD_CLOCK),
{
    broadcast use vstd::string::is_ascii_spec_bytes;

    reveal_strlit("OnboardClock");
    assert(vstd::string::is_ascii(ONBOARD_CLOCK));
    let b = ONBOARD_CLOCK.spec_bytes();
    assert forall|i: int| 0 <= i < b.len() implies b[i] != 0u8 by {
        assert(b[i] == ONBOARD_CLOCK@[i] as u8);
    }
}

/// The channel count of a task after an attempt to attach one channel to
/// it, from its count before and whether the driver accepted the channel.
pub open spec fn attached_count(before: nat, accepted: bool) -> nat {
    if accepted {
        before + 1
    } else {
        before
    }
}

/// The driver's boolean for `value`: one for true, zero for false.
pub fn bool32(value: bool) -> (r: u32)
    ensures
        r == (if value { 1u32 } else { 0u32 }),
{
    if value { 1 } else { 0 }
}

} // verus!
