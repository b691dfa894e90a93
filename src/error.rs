//! The error type, and the classification of the driver's status codes.

use vstd::prelude::*;
use crate::constants::{
    DAQmxErrorBufferTooSmallForString,
    DAQmxWarningCAPIStringTruncatedToFitBuffer,
    ERROR_TEXT_CAPACITY,
};
use crate::driver::ErrorText;
use crate::text::{buffer_to_string, c_text};
use vstd::utf8::{decode_utf8, valid_utf8};

verus! {

/// Everything that can go wrong in this library.
#[derive(Debug, Clone, PartialEq, Eq)]
pub enum DaqmxError {
    /// A fatal error reported by the driver: its (negative) status code and its extended description.
    DaqmxError(i32, String),
    /// A string handed to the driver holds a NUL byte, at this byte position.
    CStringError(usize),
    /// Text from the driver is not valid UTF-8. The driver only emits valid
    /// text, so this points to corruption.
    Utf8Error,
    /// A string property changed length between the call that measured it and
    /// the call that read it. A retry will probably succeed.
    StringPropertyLengthChanged,
    /// The driver returned a code that the named type has no value for.
    UnexpectedValue(String, i32),
    /// A read was asked to fill an empty buffer: there is nothing to read into.
    EmptyReadBuffer,
    /// A write was handed an empty buffer: there is nothing to write.
    EmptyWriteBuffer,
    /// A write's requested samples per channel does not divide the buffer into whole channels.
    SampleCountMismatch,
    /// The driver reported that a task was created but handed out no handle for it.
    MissingHandle,
    /// A channel configuration was refused before the driver was called.
    InvalidConfiguration(String),
}

/// How the driver's status code classifies a call.
#[derive(Clone, Copy, Debug, PartialEq, Eq, Structural)]
pub enum Severity {
    /// The call succeeded.
    Success,
    /// The call succeeded, with an advisory warning.
    Warning,
    /// The call failed.
    Fatal,
}

pub open spec fn severity_of(code: i32) -> Severity {
    if code == 0 {
        Severity::Success
    } else if code > 0 {
        Severity::Warning
    } else {
        Severity::Fatal
    }
}

/// Classifies a driver status code: zero is success, a positive code a
/// warning, a negative code a fatal error.
pub fn classify(code: i32) -> (r: Severity)
    ensures
        r == severity_of(code),
{
    if code == 0 {
        Severity::Success
    } else if code > 0 {
        Severity::Warning
    } else {
        Severity::Fatal
    }
}

/// `e` is what a fatal status `code` turns into: the driver error carrying
/// `code`, or, where its description could not be decoded, `Utf8Error`.
pub open spec fn is_fatal_error_for(e: DaqmxError, code: i32) -> bool {
    ||| (e matches DaqmxError::DaqmxError(c, _) && c == code)
    ||| e == DaqmxError::Utf8Error
}

/// Builds the error for a fatal status `code` from the attempt to decode its description.
pub fn fatal_error(code: i32, description: Result<String, DaqmxError>) -> (r: DaqmxError)
    ensures
        description matches Ok(s) ==> r == DaqmxError::DaqmxError(code, s),
        description matches Err(e) ==> r == e,
{
    match description {
        Ok(s) => DaqmxError::DaqmxError(code, s),
        Err(e) => e,
    }
}

/// `e` is the fatal error for status `code` whose extended description the
/// driver wrote into the NUL-terminated buffer `b`.
pub open spec fn is_fatal_text_error(e: DaqmxError, code: i32, b: Seq<i8>) -> bool {
    match e {
        DaqmxError::DaqmxError(c, s) => c == code && valid_utf8(c_text(b)) && s@ == decode_utf8(c_text(b)),
        DaqmxError::Utf8Error => !valid_utf8(c_text(b)),
        _ => false,
    }
}

/// The error for fatal status `code`, from the buffer that holds its extended
/// description: the code and the decoded text, or `Utf8Error` when the text
/// is not valid UTF-8.
pub fn fatal_error_from_text(code: i32, buffer: Vec<i8>) -> (r: DaqmxError)
    ensures
        is_fatal_text_error(r, code, buffer@),
{
    fatal_error(code, buffer_to_string(buffer))
}

/// The warning text to report, from the buffer that holds the short
/// description of a warning: its decoded text, or nothing when the text is
/// not valid UTF-8.
pub fn warning_message(buffer: Vec<i8>) -> (r: Option<String>)
    ensures
        r is Some <==> valid_utf8(c_text(buffer@)),
        r matches Some(s) ==> s@ == decode_utf8(c_text(buffer@)),
{
    match buffer_to_string(buffer) {
        Ok(message) => Some(message),
        Err(_) => None,
    }
}

/// What is reported for a warning whose text is not valid UTF-8.
pub const UNDECODABLE_WARNING: &'static str = "(warning text is not valid UTF-8)";

/// Turns a driver status code into a result.
///
/// Zero is success. A positive code is a warning: its short description is
/// fetched and reported through `source` (as `UNDECODABLE_WARNING` when it
/// cannot be decoded), and the call counts as a success.
/// A negative code is fatal: the extended description is fetched once and
/// the error carries the code and that description (see
/// [`fatal_error_from_text`]), or is `Utf8Error` when it cannot be decoded.
pub fn handle_error<E: ErrorText + ?Sized>(source: &E, return_code: i32) -> (r: Result<(), DaqmxError>)
    ensures
        r is Ok <==> return_code >= 0,
        r matches Err(e) ==> is_fatal_error_for(e, return_code),
        r matches Err(e) ==> exists|b: Seq<i8>| #[trigger] is_fatal_text_error(e, return_code, b),
{
    match classify(return_code) {
        Severity::Success => Ok(()),
        Severity::Fatal => {
            let mut buffer: Vec<i8> = vec![0i8; ERROR_TEXT_CAPACITY];
            let _ = source.get_extended_error_info(buffer.as_mut_slice());
            let ghost text = buffer@;
            let e = fatal_error_from_text(return_code, buffer);
            assert(is_fatal_text_error(e, return_code, text));
            Err(e)
        },
        Severity::Warning => {
            let mut buffer: Vec<i8> = vec![0i8; ERROR_TEXT_CAPACITY];
            let _ = source.get_error_string(return_code, buffer.as_mut_slice());
            match warning_message(buffer) {
                Some(message) => source.report_warning(return_code, message.as_str()),
                None => source.report_warning(return_code, UNDECODABLE_WARNING),
            }
            Ok(())
        },
    }
}

/// A value the driver returned beside its status `code`: the value when the
/// code is not negative, the fatal error otherwise.
pub fn with_status<E: ErrorText + ?Sized, T>(source: &E, code: i32, value: T) -> (r: Result<T, DaqmxError>)
    ensures
        code >= 0 ==> r == Ok::<T, DaqmxError>(value),
        code < 0 ==> (r matches Err(e) && is_fatal_error_for(e, code)),
{
    handle_error(source, code)?;
    Ok(value)
}

/// Whether a status code asks for the string query to be repeated with a larger buffer.
pub open spec fn is_size_code(code: i32) -> bool {
    code == DAQmxErrorBufferTooSmallForString || code == DAQmxWarningCAPIStringTruncatedToFitBuffer
}

/// Checks the status code of a string query.
///
/// * `Ok(true)`: the buffer was too small, or the text was cut to fit it; ask again.
/// * `Ok(false)`: no error.
/// * `Err`: any other fatal code.
pub fn string_property_size_error<E: ErrorText + ?Sized>(source: &E, return_code: i32) -> (r: Result<bool, DaqmxError>)
    ensures
        is_size_code(return_code) ==> r == Ok::<bool, DaqmxError>(true),
        !is_size_code(return_code) && return_code >= 0 ==> r == Ok::<bool, DaqmxError>(false),
        !is_size_code(return_code) && return_code < 0 ==> (r matches Err(e) && is_fatal_error_for(e, return_code)),
{
    if return_code == DAQmxErrorBufferTooSmallForString || return_code == DAQmxWarningCAPIStringTruncatedToFitBuffer {
        Ok(true)
    } else if return_code < 0 {
        match handle_error(source, return_code) {
            Ok(()) => Ok(false),
            Err(e) => Err(e),
        }
    } else {
        Ok(false)
    }
}

} // verus!
