//! Channel builders, which attach channels to tasks, and channel accessors,
//! which read back the configuration of attached channels.

use vstd::prelude::*;
use crate::constants::{
    DAQmx_Val_ChanForAllLines,
    DAQmx_Val_Cfg_Default,
    DAQmx_Val_Diff,
    DAQmx_Val_FromCustomScale,
    DAQmx_Val_FromTEDS,
    DAQmx_Val_NRSE,
    DAQmx_Val_PseudoDiff,
    DAQmx_Val_RSE,
    DAQmx_Val_Volts,
};
use crate::driver::{Driver, ErrorText, IntProperty, RealProperty, StringProperty};
use crate::error::{handle_error, is_fatal_error_for, is_size_code, string_property_size_error, DaqmxError};
use crate::task::{
    is_driver_error,
    is_nul_error,
    AnalogInput,
    AnalogOutput,
    CounterInput,
    CounterOutput,
    DigitalInput,
    DigitalOutput,
    Task,
};
use crate::text::{buffer_to_string, check_c_string, has_nul, is_property_text_of, is_text_of, property_buffer_to_string};
use crate::types::{ClockEdge, CountDirection};
use vstd::utf8::encode_utf8;

verus! {

/// Reads a string property in two steps: one call measures it, the next reads it.
pub fn read_string_property<D: Driver>(
    driver: &D,
    handle: &D::Handle,
    channel: &str,
    property: StringProperty,
) -> (r: Result<String, DaqmxError>)
    ensures
        r matches Err(e) ==> is_driver_error(e) || e == DaqmxError::StringPropertyLengthChanged,
{
    let mut empty: Vec<i8> = Vec::new();
    let size_code = driver.get_string_property(handle, channel, property, empty.as_mut_slice());
    let size = string_size(driver, size_code)?;
    let mut buffer: Vec<i8> = vec![0i8; size];
    let code = driver.get_string_property(handle, channel, property, buffer.as_mut_slice());
    finish_string_query(driver, code, buffer)
}

/// The buffer size that the measuring step of a string query asks for: its
/// status is the size when it is not negative, and a fatal error otherwise.
pub fn string_size<E: ErrorText + ?Sized>(source: &E, code: i32) -> (r: Result<usize, DaqmxError>)
    ensures
        code >= 0 ==> r == Ok::<usize, DaqmxError>(code as usize),
        code < 0 ==> (r matches Err(e) && is_fatal_error_for(e, code)),
{
    handle_error(source, code)?;
    Ok(code as usize)
}

/// Reads the task's name in two steps: one call measures it, the next reads
/// it. The name is the text before the first NUL of what the driver wrote,
/// within the measured size.
pub fn read_task_name<D: Driver>(driver: &D, handle: &D::Handle) -> (r: Result<String, DaqmxError>)
    ensures
        r matches Err(e) ==> is_driver_error(e) || e == DaqmxError::StringPropertyLengthChanged,
        r matches Ok(s) ==> !s@.contains('\0') && s@.len() <= i32::MAX,
{
    let mut empty: Vec<i8> = Vec::new();
    let size_code = driver.get_string_property(handle, "", StringProperty::TaskName, empty.as_mut_slice());
    let size = string_size(driver, size_code)?;
    let mut buffer: Vec<i8> = vec![0i8; size];
    let code = driver.get_string_property(handle, "", StringProperty::TaskName, buffer.as_mut_slice());
    finish_name_query(driver, code, buffer, size)
}

/// The first `size` elements of `b`, or all of it when it is shorter.
pub open spec fn within(b: Seq<i8>, size: nat) -> Seq<i8> {
    if size <= b.len() {
        b.take(size as int)
    } else {
        b
    }
}

/// Turns the status of the second step of a task-name query, the buffer it
/// filled and the measured `size` into the name: the text before the first
/// NUL within `size` bytes.
pub fn finish_name_query<E: ErrorText + ?Sized>(source: &E, code: i32, buffer: Vec<i8>, size: usize) -> (r: Result<String, DaqmxError>)
    ensures
        is_size_code(code) ==> r == Err::<String, DaqmxError>(DaqmxError::StringPropertyLengthChanged),
        !is_size_code(code) && code < 0 ==> (r matches Err(e) && is_fatal_error_for(e, code)),
        !is_size_code(code) && code >= 0 ==> is_text_of(within(buffer@, size as nat), r),
        r matches Ok(s) ==> !s@.contains('\0') && s@.len() <= size,
{
    if string_property_size_error(source, code)? {
        return Err(DaqmxError::StringPropertyLengthChanged);
    }
    let ghost written = buffer@;
    let mut buffer = buffer;
    buffer.truncate(size);
    assert(buffer@ =~= within(written, size as nat));
    buffer_to_string(buffer)
}

/// Reads a string property, repeating the two steps while the text changes
/// length between them, at most `attempts` times in all (at least once).
///
/// With one attempt this is [`read_string_property`]: a change of length is
/// reported to the caller as `StringPropertyLengthChanged`.
pub fn read_string_property_retrying<D: Driver>(
    driver: &D,
    handle: &D::Handle,
    channel: &str,
    property: StringProperty,
    attempts: u32,
) -> (r: Result<String, DaqmxError>)
    ensures
        r matches Err(e) ==> is_driver_error(e) || e == DaqmxError::StringPropertyLengthChanged,
{
    let mut left: u32 = if attempts == 0 { 1 } else { attempts };
    loop
        invariant
            left >= 1,
        decreases left,
    {
        let r = read_string_property(driver, handle, channel, property);
        if !should_retry(&r, left) {
            return r;
        }
        left = left - 1;
    }
}

/// Whether a string query is asked again: its text changed length between
/// the two steps, and attempts are left after this one.
pub fn should_retry(r: &Result<String, DaqmxError>, left: u32) -> (b: bool)
    ensures
        b == (*r == Err::<String, DaqmxError>(DaqmxError::StringPropertyLengthChanged) && left > 1),
{
    match r {
        Err(DaqmxError::StringPropertyLengthChanged) => left > 1,
        _ => false,
    }
}

/// Turns the status of the second step of a string query, and the buffer it
/// filled, into the property's text.
pub fn finish_string_query<E: ErrorText + ?Sized>(source: &E, code: i32, buffer: Vec<i8>) -> (r: Result<String, DaqmxError>)
    ensures
        is_size_code(code) ==> r == Err::<String, DaqmxError>(DaqmxError::StringPropertyLengthChanged),
        !is_size_code(code) && code < 0 ==> (r matches Err(e) && is_fatal_error_for(e, code)),
        !is_size_code(code) && code >= 0 ==> is_property_text_of(buffer@, r),
{
    if string_property_size_error(source, code)? {
        return Err(DaqmxError::StringPropertyLengthChanged);
    }
    property_buffer_to_string(buffer)
}

/// Reads an integer property of a channel.
pub fn read_int_property<D: Driver>(
    driver: &D,
    handle: &D::Handle,
    channel: &str,
    property: IntProperty,
) -> (r: Result<i32, DaqmxError>)
    ensures
        r matches Err(e) ==> is_driver_error(e),
{
    let (code, value) = driver.get_int_property(handle, channel, property);
    handle_error(driver, code)?;
    Ok(value)
}

/// Reads a real-valued property of a channel.
pub fn read_real_property<D: Driver>(
    driver: &D,
    handle: &D::Handle,
    channel: &str,
    property: RealProperty,
) -> (r: Result<D::Real, DaqmxError>)
    ensures
        r matches Err(e) ==> is_driver_error(e),
{
    let (code, value) = driver.get_real_property(handle, channel, property);
    handle_error(driver, code)?;
    Ok(value)
}

/// A channel configuration that can be attached to an input task.
pub trait ChannelBuilderInput<D: Driver> {
    /// Creates the channel in the driver task behind `task`.
    fn add_to_task(self, driver: &D, task: &D::Handle) -> Result<(), DaqmxError>;
}

/// A channel configuration that can be attached to an output task.
pub trait ChannelBuilderOutput<D: Driver> {
    /// Creates the channel in the driver task behind `task`.
    fn add_to_task(self, driver: &D, task: &D::Handle) -> Result<(), DaqmxError>;
}

/// Marks the channel configurations that analog tasks accept.
pub trait AnalogChannelBuilderTrait {}

/// Marks the channel configurations that digital tasks accept.
pub trait DigitalChannelBuilderTrait {}

/// Marks the channel configurations that counter tasks accept.
pub trait CounterChannelBuilderTrait {}

/// Task kinds that hold analog channels.
pub trait AnalogChannelType {}

impl AnalogChannelType for AnalogInput {}

impl AnalogChannelType for AnalogOutput {}

/// Task kinds that hold digital channels.
pub trait DigitalChannelType {}

impl DigitalChannelType for DigitalInput {}

impl DigitalChannelType for DigitalOutput {}

/// Task kinds that hold counter channels.
pub trait CounterChannelType {}

impl CounterChannelType for CounterInput {}

impl CounterChannelType for CounterOutput {}

/// An accessor for an analog channel of a task, found by its name.
pub trait AnalogChannelTrait<K: AnalogChannelType, D: Driver>: Sized {
    /// An accessor over a clone of `task`; no driver call is made. A name
    /// with a NUL byte is refused.
    fn new(task: Task<K, D>, name: &str) -> (r: Result<Self, DaqmxError>)
        ensures
            r is Ok <==> !has_nul(name),
            r matches Err(e) ==> is_nul_error(e),
    ;
}

/// An accessor for a digital channel of a task, found by its name.
pub trait DigitalChannelTrait<K: DigitalChannelType, D: Driver>: Sized {
    /// An accessor over a clone of `task`; no driver call is made. A name
    /// with a NUL byte is refused.
    fn new(task: Task<K, D>, name: &str) -> (r: Result<Self, DaqmxError>)
        ensures
            r is Ok <==> !has_nul(name),
            r matches Err(e) ==> is_nul_error(e),
    ;
}

/// An accessor for a counter channel of a task, found by its name.
pub trait CounterChannelTrait<K: CounterChannelType, D: Driver>: Sized {
    /// An accessor over a clone of `task`; no driver call is made. A name
    /// with a NUL byte is refused.
    fn new(task: Task<K, D>, name: &str) -> (r: Result<Self, DaqmxError>)
        ensures
            r is Ok <==> !has_nul(name),
            r matches Err(e) ==> is_nul_error(e),
    ;
}

/// Checks a channel name and keeps a copy of it.
fn channel_name(name: &str) -> (r: Result<String, DaqmxError>)
    ensures
        r is Ok <==> !has_nul(name),
        r matches Ok(s) ==> s@ == name@,
        r matches Err(e) ==> is_nul_error(e),
{
    check_c_string(name)?;
    Ok(name.to_owned())
}

/// The input configuration of an analog input.
#[derive(Clone, Copy, PartialEq, Eq, Debug, Structural)]
pub enum AnalogTerminalConfig {
    /// The default for the device and measurement type.
    Default,
    /// Referenced single-ended (to AI GND).
    RSE,
    /// Non-referenced single-ended (to AI SENSE).
    NRSE,
    /// Differential.
    Differential,
    /// Pseudo-differential.
    PseudoDifferential,
}

impl AnalogTerminalConfig {
    pub open spec fn spec_code(self) -> i32 {
        match self {
            AnalogTerminalConfig::Default => DAQmx_Val_Cfg_Default,
            AnalogTerminalConfig::RSE => DAQmx_Val_RSE,
            AnalogTerminalConfig::NRSE => DAQmx_Val_NRSE,
            AnalogTerminalConfig::Differential => DAQmx_Val_Diff,
            AnalogTerminalConfig::PseudoDifferential => DAQmx_Val_PseudoDiff,
        }
    }

    /// The driver's value for this configuration.
    pub fn code(self) -> (r: i32)
        ensures
            r == self.spec_code(),
    {
        match self {
            AnalogTerminalConfig::Default => DAQmx_Val_Cfg_Default,
            AnalogTerminalConfig::RSE => DAQmx_Val_RSE,
            AnalogTerminalConfig::NRSE => DAQmx_Val_NRSE,
            AnalogTerminalConfig::Differential => DAQmx_Val_Diff,
            AnalogTerminalConfig::PseudoDifferential => DAQmx_Val_PseudoDiff,
        }
    }

    /// The configuration that the driver's `value` stands for.
    pub fn from_code(value: i32) -> (r: Result<Self, DaqmxError>)
        ensures
            (value == DAQmx_Val_Cfg_Default || value == DAQmx_Val_RSE || value == DAQmx_Val_NRSE || value
                == DAQmx_Val_Diff || value == DAQmx_Val_PseudoDiff) <==> r is Ok,
            r matches Ok(c) ==> c.spec_code() == value,
            r matches Err(e) ==> (e matches DaqmxError::UnexpectedValue(_, v) && v == value),
    {
        if value == DAQmx_Val_Cfg_Default {
            Ok(AnalogTerminalConfig::Default)
        } else if value == DAQmx_Val_RSE {
            Ok(AnalogTerminalConfig::RSE)
        } else if value == DAQmx_Val_NRSE {
            Ok(AnalogTerminalConfig::NRSE)
        } else if value == DAQmx_Val_Diff {
            Ok(AnalogTerminalConfig::Differential)
        } else if value == DAQmx_Val_PseudoDiff {
            Ok(AnalogTerminalConfig::PseudoDifferential)
        } else {
            Err(DaqmxError::UnexpectedValue("AnalogTerminalConfig".to_owned(), value))
        }
    }
}

impl Default for AnalogTerminalConfig {
    fn default() -> (r: Self)
        ensures
            r == AnalogTerminalConfig::Default,
    {
        AnalogTerminalConfig::Default
    }
}

/// The units of a voltage channel.
#[derive(Clone, PartialEq, Eq, Debug)]
pub enum VoltageScale {
    /// Volts.
    Volts,
    /// A custom scale, with its name once it is known.
    CustomScale(Option<String>),
    /// Units from the sensor's TEDS data (read only).
    FromTEDS,
}

impl VoltageScale {
    pub open spec fn spec_code(self) -> i32 {
        match self {
            VoltageScale::Volts => DAQmx_Val_Volts,
            VoltageScale::CustomScale(_) => DAQmx_Val_FromCustomScale,
            VoltageScale::FromTEDS => DAQmx_Val_FromTEDS,
        }
    }

    /// The driver's units value for this scale.
    pub fn code(&self) -> (r: i32)
        ensures
            r == self.spec_code(),
    {
        match self {
            VoltageScale::Volts => DAQmx_Val_Volts,
            VoltageScale::CustomScale(_) => DAQmx_Val_FromCustomScale,
            VoltageScale::FromTEDS => DAQmx_Val_FromTEDS,
        }
    }

    /// The scale name to hand to the driver: the custom scale's name, or empty.
    pub fn scale_name(&self) -> (r: &str)
        ensures
            self matches VoltageScale::CustomScale(Some(n)) ==> r@ == n@,
            !(self matches VoltageScale::CustomScale(Some(_))) ==> r@.len() == 0,
    {
        match self {
            VoltageScale::CustomScale(Some(name)) => name.as_str(),
            _ => {
                proof {
                    reveal_strlit("");
                }
                ""
            },
        }
    }

    /// The scale that the driver's units `value` stands for; a custom scale
    /// comes without its name.
    pub fn from_code(value: i32) -> (r: Result<Self, DaqmxError>)
        ensures
            (value == DAQmx_Val_Volts || value == DAQmx_Val_FromCustomScale || value == DAQmx_Val_FromTEDS) <==> r is Ok,
            value == DAQmx_Val_Volts ==> r == Ok::<VoltageScale, DaqmxError>(VoltageScale::Volts),
            value == DAQmx_Val_FromCustomScale ==> r == Ok::<VoltageScale, DaqmxError>(VoltageScale::CustomScale(None)),
            value == DAQmx_Val_FromTEDS ==> r == Ok::<VoltageScale, DaqmxError>(VoltageScale::FromTEDS),
            r matches Err(e) ==> (e matches DaqmxError::UnexpectedValue(_, v) && v == value),
    {
        if value == DAQmx_Val_Volts {
            Ok(VoltageScale::Volts)
        } else if value == DAQmx_Val_FromCustomScale {
            Ok(VoltageScale::CustomScale(None))
        } else if value == DAQmx_Val_FromTEDS {
            Ok(VoltageScale::FromTEDS)
        } else {
            Err(DaqmxError::UnexpectedValue("VoltageScale".to_owned(), value))
        }
    }
}

/// `e` is what reading a string property can fail with.
pub open spec fn is_string_read_error(e: DaqmxError) -> bool {
    is_driver_error(e) || e == DaqmxError::StringPropertyLengthChanged
}

/// The configuration of an analog channel already attached to a task.
pub struct AnalogChannelBase<K: AnalogChannelType, D: Driver> {
    task: Task<K, D>,
    name: String,
}

impl<K: AnalogChannelType, D: Driver> AnalogChannelTrait<K, D> for AnalogChannelBase<K, D> {
    fn new(task: Task<K, D>, name: &str) -> (r: Result<Self, DaqmxError>) {
        let name = channel_name(name)?;
        Ok(AnalogChannelBase { task, name })
    }
}

impl<K: AnalogChannelType, D: Driver> AnalogChannelBase<K, D> {
    /// The physical channel(s) behind this channel.
    pub fn physical_channel(&self) -> (r: Result<String, DaqmxError>)
        ensures
            r matches Err(e) ==> is_string_read_error(e),
    {
        read_string_property(
            self.task.driver(),
            self.task.raw_handle(),
            self.name.as_str(),
            StringProperty::PhysicalChannelName,
        )
    }

    /// The largest value the channel is set up to measure.
    pub fn ai_max(&self) -> (r: Result<D::Real, DaqmxError>)
        ensures
            r matches Err(e) ==> is_driver_error(e),
    {
        read_real_property(self.task.driver(), self.task.raw_handle(), self.name.as_str(), RealProperty::AIMax)
    }

    /// The smallest value the channel is set up to measure.
    pub fn ai_min(&self) -> (r: Result<D::Real, DaqmxError>)
        ensures
            r matches Err(e) ==> is_driver_error(e),
    {
        read_real_property(self.task.driver(), self.task.raw_handle(), self.name.as_str(), RealProperty::AIMin)
    }

    /// The terminal configuration of the channel.
    pub fn ai_terminal_config(&self) -> (r: Result<AnalogTerminalConfig, DaqmxError>)
        ensures
            r matches Err(e) ==> is_driver_error(e) || e is UnexpectedValue,
    {
        let value = read_int_property(
            self.task.driver(),
            self.task.raw_handle(),
            self.name.as_str(),
            IntProperty::AITerminalConfig,
        )?;
        AnalogTerminalConfig::from_code(value)
    }

    /// The name of the channel's custom scale.
    pub fn custom_scale_name(&self) -> (r: Result<String, DaqmxError>)
        ensures
            r matches Err(e) ==> is_string_read_error(e),
    {
        read_string_property(
            self.task.driver(),
            self.task.raw_handle(),
            self.name.as_str(),
            StringProperty::AICustomScaleName,
        )
    }

    /// The voltage units of the channel, with the custom scale's name when one is used.
    pub fn voltage_scale(&self) -> (r: Result<VoltageScale, DaqmxError>)
        ensures
            r matches Ok(s) ==> !(s matches VoltageScale::CustomScale(None)),
            r matches Err(e) ==> is_string_read_error(e) || e is UnexpectedValue,
    {
        let units = read_int_property(
            self.task.driver(),
            self.task.raw_handle(),
            self.name.as_str(),
            IntProperty::AIVoltageUnits,
        )?;
        let scale = VoltageScale::from_code(units)?;
        match scale {
            VoltageScale::CustomScale(_) => {
                let name = self.custom_scale_name()?;
                Ok(VoltageScale::CustomScale(Some(name)))
            },
            other => Ok(other),
        }
    }
}

/// The configuration of a voltage channel already attached to a task.
pub struct VoltageChannelBase<K: AnalogChannelType, D: Driver> {
    ai_channel: AnalogChannelBase<K, D>,
}

impl<K: AnalogChannelType, D: Driver> AnalogChannelTrait<K, D> for VoltageChannelBase<K, D> {
    fn new(task: Task<K, D>, name: &str) -> (r: Result<Self, DaqmxError>) {
        let ai_channel = AnalogChannelBase::new(task, name)?;
        Ok(VoltageChannelBase { ai_channel })
    }
}

impl<K: AnalogChannelType, D: Driver> VoltageChannelBase<K, D> {
    /// The largest value the channel is set up to measure.
    pub fn ai_max(&self) -> (r: Result<D::Real, DaqmxError>)
        ensures
            r matches Err(e) ==> is_driver_error(e),
    {
        self.ai_channel.ai_max()
    }

    /// The smallest value the channel is set up to measure.
    pub fn ai_min(&self) -> (r: Result<D::Real, DaqmxError>)
        ensures
            r matches Err(e) ==> is_driver_error(e),
    {
        self.ai_channel.ai_min()
    }

    /// The physical channel(s) behind this channel.
    pub fn physical_channel(&self) -> (r: Result<String, DaqmxError>)
        ensures
            r matches Err(e) ==> is_string_read_error(e),
    {
        self.ai_channel.physical_channel()
    }

    /// The terminal configuration of the channel.
    pub fn ai_terminal_config(&self) -> (r: Result<AnalogTerminalConfig, DaqmxError>)
        ensures
            r matches Err(e) ==> is_driver_error(e) || e is UnexpectedValue,
    {
        self.ai_channel.ai_terminal_config()
    }

    /// The units of the channel; a custom scale comes with its name.
    pub fn scale(&self) -> (r: Result<VoltageScale, DaqmxError>)
        ensures
            r matches Ok(s) ==> !(s matches VoltageScale::CustomScale(None)),
            r matches Err(e) ==> is_string_read_error(e) || e is UnexpectedValue,
    {
        self.ai_channel.voltage_scale()
    }
}

/// The configuration of a digital channel already attached to a task.
pub struct DigitalChannelBase<K: DigitalChannelType, D: Driver> {
    task: Task<K, D>,
    name: String,
}

impl<K: DigitalChannelType, D: Driver> DigitalChannelTrait<K, D> for DigitalChannelBase<K, D> {
    fn new(task: Task<K, D>, name: &str) -> (r: Result<Self, DaqmxError>) {
        let name = channel_name(name)?;
        Ok(DigitalChannelBase { task, name })
    }
}

impl<K: DigitalChannelType, D: Driver> DigitalChannelBase<K, D> {
    /// The physical lines behind this channel.
    pub fn physical_channel(&self) -> (r: Result<String, DaqmxError>)
        ensures
            r matches Err(e) ==> is_string_read_error(e),
    {
        read_string_property(
            self.task.driver(),
            self.task.raw_handle(),
            self.name.as_str(),
            StringProperty::PhysicalChannelName,
        )
    }
}

/// The configuration of a counter channel already attached to a task.
pub struct CounterChannelBase<K: CounterChannelType, D: Driver> {
    task: Task<K, D>,
    name: String,
}

impl<K: CounterChannelType, D: Driver> CounterChannelTrait<K, D> for CounterChannelBase<K, D> {
    fn new(task: Task<K, D>, name: &str) -> (r: Result<Self, DaqmxError>) {
        let name = channel_name(name)?;
        Ok(CounterChannelBase { task, name })
    }
}

impl<K: CounterChannelType, D: Driver> CounterChannelBase<K, D> {
    /// The physical counter behind this channel.
    pub fn physical_channel(&self) -> (r: Result<String, DaqmxError>)
        ensures
            r matches Err(e) ==> is_string_read_error(e),
    {
        read_string_property(
            self.task.driver(),
            self.task.raw_handle(),
            self.name.as_str(),
            StringProperty::PhysicalChannelName,
        )
    }
}

/// The name handed to the driver: the chosen one, or empty to let the driver pick.
fn name_or_empty(name: &Option<String>) -> (r: &str)
    ensures
        name matches Some(n) ==> r@ == n@,
        name is None ==> r@.len() == 0,
{
    match name {
        Some(n) => n.as_str(),
        None => {
            proof {
                reveal_strlit("");
            }
            ""
        },
    }
}

/// A channel configuration's physical channel or name holds a NUL byte, so
/// it cannot be handed to the driver.
pub open spec fn channel_names_have_nul(physical: Seq<char>, name: Option<String>) -> bool {
    encode_utf8(physical).contains(0u8) || (name matches Some(n) && encode_utf8(n@).contains(0u8))
}

/// Checks that a channel configuration's physical channel and name can be
/// handed to the driver.
pub fn check_channel_names(physical: &str, name: &Option<String>) -> (r: Result<(), DaqmxError>)
    ensures
        channel_names_have_nul(physical@, *name) <==> (r matches Err(e) && is_nul_error(e)),
        r matches Err(e) ==> is_nul_error(e),
{
    check_c_string(physical)?;
    check_c_string(name_or_empty(name))
}

/// A digital channel: one or more lines that are read or written together.
#[derive(Clone, Debug)]
pub struct DigitalChannel {
    /// The physical lines, for example `"Dev1/port0/line0:3"`.
    pub physical_channel: String,
    /// The channel's name; `None` lets the driver pick one.
    pub name: Option<String>,
}

/// Collects the configuration of a [`DigitalChannel`].
#[derive(Clone, Debug)]
pub struct DigitalChannelBuilder {
    /// The physical lines, for example `"Dev1/port0/line0:3"`.
    pub physical_channel: String,
    /// The channel's name; `None` lets the driver pick one.
    pub name: Option<String>,
}

impl DigitalChannel {
    /// Starts the configuration of a digital channel named `name` over the
    /// lines `physical_channel` (for example `"Dev1/port0/line0:3"`).
    ///
    /// All lines of the channel form one channel. When several channels are
    /// attached to one task, give each the same number of lines.
    pub fn new(name: &str, physical_channel: &str) -> (r: Result<DigitalChannelBuilder, DaqmxError>)
        ensures
            r is Ok <==> !has_nul(name) && !has_nul(physical_channel),
            r matches Ok(b) ==> b.physical_channel@ == physical_channel@ && (b.name matches Some(n) && n@ == name@),
            r matches Err(e) ==> is_nul_error(e),
    {
        let physical_channel = channel_name(physical_channel)?;
        let name = channel_name(name)?;
        Ok(DigitalChannelBuilder { physical_channel, name: Some(name) })
    }

    /// The physical lines of the channel.
    pub fn physical_channel(&self) -> (r: &str)
        ensures
            r@ == self.physical_channel@,
    {
        self.physical_channel.as_str()
    }
}

impl DigitalChannelBuilder {
    /// Replaces the channel's name; `None` lets the driver pick one.
    pub fn name(self, name: Option<String>) -> (r: Self)
        ensures
            r.physical_channel == self.physical_channel,
            r.name == name,
    {
        DigitalChannelBuilder { physical_channel: self.physical_channel, name }
    }

    /// The finished configuration.
    pub fn build(self) -> (r: DigitalChannel)
        ensures
            r.physical_channel == self.physical_channel,
            r.name == self.name,
    {
        DigitalChannel { physical_channel: self.physical_channel, name: self.name }
    }
}

impl DigitalChannelBuilderTrait for DigitalChannel {}

impl<D: Driver> ChannelBuilderInput<D> for DigitalChannel {
    /// See [`DigitalChannel::add_input_to`].
    fn add_to_task(self, driver: &D, task: &D::Handle) -> Result<(), DaqmxError> {
        self.add_input_to(driver, task)
    }
}

impl<D: Driver> ChannelBuilderOutput<D> for DigitalChannel {
    /// See [`DigitalChannel::add_output_to`].
    fn add_to_task(self, driver: &D, task: &D::Handle) -> Result<(), DaqmxError> {
        self.add_output_to(driver, task)
    }
}

impl DigitalChannel {
    /// Creates the channel as digital input lines in the driver task behind
    /// `task`. Names with a NUL byte are refused before the driver is called.
    pub fn add_input_to<D: Driver>(self, driver: &D, task: &D::Handle) -> (r: Result<(), DaqmxError>)
        ensures
            channel_names_have_nul(self.physical_channel@, self.name) <==> (r matches Err(e) && is_nul_error(e)),
            r matches Err(e) ==> is_nul_error(e) || is_driver_error(e),
    {
        check_channel_names(self.physical_channel.as_str(), &self.name)?;
        let code = driver.create_di_chan(
            task,
            self.physical_channel.as_str(),
            name_or_empty(&self.name),
            DAQmx_Val_ChanForAllLines,
        );
        handle_error(driver, code)
    }

    /// Creates the channel as digital output lines in the driver task behind
    /// `task`. Names with a NUL byte are refused before the driver is called.
    pub fn add_output_to<D: Driver>(self, driver: &D, task: &D::Handle) -> (r: Result<(), DaqmxError>)
        ensures
            channel_names_have_nul(self.physical_channel@, self.name) <==> (r matches Err(e) && is_nul_error(e)),
            r matches Err(e) ==> is_nul_error(e) || is_driver_error(e),
    {
        check_channel_names(self.physical_channel.as_str(), &self.name)?;
        let code = driver.create_do_chan(
            task,
            self.physical_channel.as_str(),
            name_or_empty(&self.name),
            DAQmx_Val_ChanForAllLines,
        );
        handle_error(driver, code)
    }
}

/// A counter input channel that counts edges.
#[derive(Clone, Debug)]
pub struct CounterInputCountEdgesChannel {
    /// The physical counter, for example `"Dev1/ctr0"`.
    pub physical_counter: String,
    /// The channel's name; `None` lets the driver pick one.
    pub name: Option<String>,
    /// The edge that is counted (default: rising).
    pub edge: ClockEdge,
    /// The count to start from (default: zero).
    pub initial_count: u32,
    /// Whether the count goes up or down (default: up).
    pub count_direction: CountDirection,
}

/// Collects the configuration of a [`CounterInputCountEdgesChannel`].
#[derive(Clone, Debug)]
pub struct CounterInputCountEdgesChannelBuilder {
    /// The physical counter, for example `"Dev1/ctr0"`.
    pub physical_counter: String,
    /// The channel's name; `None` lets the driver pick one.
    pub name: Option<String>,
    /// The edge that is counted.
    pub edge: ClockEdge,
    /// The count to start from.
    pub initial_count: u32,
    /// Whether the count goes up or down.
    pub count_direction: CountDirection,
}

impl CounterInputCountEdgesChannel {
    /// Starts the configuration of an edge-counting channel named `name` on the
    /// counter `physical_counter` (for example `"Dev1/ctr0"`), with the default
    /// edge, initial count and direction.
    pub fn builder(name: &str, physical_counter: &str) -> (r: Result<CounterInputCountEdgesChannelBuilder, DaqmxError>)
        ensures
            r is Ok <==> !has_nul(name) && !has_nul(physical_counter),
            r matches Ok(b) ==> {
                &&& b.physical_counter@ == physical_counter@
                &&& b.name matches Some(n) && n@ == name@
                &&& b.edge == ClockEdge::Rising
                &&& b.initial_count == 0
                &&& b.count_direction == CountDirection::CountUp
            },
            r matches Err(e) ==> is_nul_error(e),
    {
        let physical_counter = channel_name(physical_counter)?;
        let name = channel_name(name)?;
        Ok(CounterInputCountEdgesChannelBuilder {
            physical_counter,
            name: Some(name),
            edge: ClockEdge::Rising,
            initial_count: 0,
            count_direction: CountDirection::CountUp,
        })
    }

    /// The physical counter of the channel.
    pub fn physical_counter(&self) -> (r: &str)
        ensures
            r@ == self.physical_counter@,
    {
        self.physical_counter.as_str()
    }
}

impl CounterInputCountEdgesChannelBuilder {
    /// Sets the edge that is counted.
    pub fn edge(self, edge: ClockEdge) -> (r: Self)
        ensures
            r == (CounterInputCountEdgesChannelBuilder { edge, ..self }),
    {
        CounterInputCountEdgesChannelBuilder { edge, ..self }
    }

    /// Sets the count to start from.
    pub fn initial_count(self, initial_count: u32) -> (r: Self)
        ensures
            r == (CounterInputCountEdgesChannelBuilder { initial_count, ..self }),
    {
        CounterInputCountEdgesChannelBuilder { initial_count, ..self }
    }

    /// Sets whether the count goes up or down.
    pub fn count_direction(self, count_direction: CountDirection) -> (r: Self)
        ensures
            r == (CounterInputCountEdgesChannelBuilder { count_direction, ..self }),
    {
        CounterInputCountEdgesChannelBuilder { count_direction, ..self }
    }

    /// The finished configuration.
    pub fn build(self) -> (r: CounterInputCountEdgesChannel)
        ensures
            r.physical_counter == self.physical_counter,
            r.name == self.name,
            r.edge == self.edge,
            r.initial_count == self.initial_count,
            r.count_direction == self.count_direction,
    {
        CounterInputCountEdgesChannel {
            physical_counter: self.physical_counter,
            name: self.name,
            edge: self.edge,
            initial_count: self.initial_count,
            count_direction: self.count_direction,
        }
    }
}

impl CounterChannelBuilderTrait for CounterInputCountEdgesChannel {}

impl<D: Driver> ChannelBuilderInput<D> for CounterInputCountEdgesChannel {
    fn add_to_task(self, driver: &D, task: &D::Handle) -> (r: Result<(), DaqmxError>)
        ensures
            channel_names_have_nul(self.physical_counter@, self.name) <==> (r matches Err(e) && is_nul_error(e)),
            r matches Err(e) ==> is_nul_error(e) || is_driver_error(e),
    {
        check_channel_names(self.physical_counter.as_str(), &self.name)?;
        let code = driver.create_ci_count_edges_chan(
            task,
            self.physical_counter.as_str(),
            name_or_empty(&self.name),
            i32::from(self.edge),
            self.initial_count,
            i32::from(self.count_direction),
        );
        handle_error(driver, code)
    }
}

} // verus!
