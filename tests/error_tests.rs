use std::cell::{Cell, RefCell};

use daqmx::constants::{DAQmxErrorBufferTooSmallForString, DAQmxWarningCAPIStringTruncatedToFitBuffer};
use daqmx::driver::ErrorText;
use daqmx::error::{
    classify, fatal_error, fatal_error_from_text, handle_error, string_property_size_error, warning_message, with_status,
    DaqmxError, Severity, UNDECODABLE_WARNING,
};
use daqmx::channels::{finish_name_query, finish_string_query, should_retry, string_size};
use daqmx::io::{
    bools_from_lines, clamp_buffer_len, line_byte, line_set, lines_to_bools, requested_samples, transfer_result,
    write_request,
};
use daqmx::task::{auto_start_result, clock_source};

/// Error text that counts how often it is asked for.
#[derive(Default)]
struct CountingText {
    extended_calls: Cell<usize>,
    warning_calls: Cell<usize>,
    warnings: RefCell<Vec<(i32, String)>>,
}

fn fill(buffer: &mut [i8], text: &str) -> i32 {
    for (i, b) in text.bytes().enumerate() {
        if i + 1 < buffer.len() {
            buffer[i] = b as i8;
            buffer[i + 1] = 0;
        }
    }
    0
}

impl ErrorText for CountingText {
    fn get_extended_error_info(&self, buffer: &mut [i8]) -> i32 {
        self.extended_calls.set(self.extended_calls.get() + 1);
        fill(buffer, "Device identifier is invalid.")
    }

    fn get_error_string(&self, _code: i32, buffer: &mut [i8]) -> i32 {
        self.warning_calls.set(self.warning_calls.get() + 1);
        fill(buffer, "Something looks odd.")
    }

    fn report_warning(&self, code: i32, message: &str) {
        self.warnings.borrow_mut().push((code, message.to_string()));
    }
}

#[test]
fn test_string_property_size_error() {
    let text = CountingText::default();
    assert_eq!(string_property_size_error(&text, 0).unwrap(), false);
    assert_eq!(
        string_property_size_error(&text, DAQmxErrorBufferTooSmallForString).unwrap(),
        true
    );
    assert_eq!(
        string_property_size_error(&text, DAQmxWarningCAPIStringTruncatedToFitBuffer).unwrap(),
        true
    );

    match string_property_size_error(&text, -1000) {
        Err(DaqmxError::DaqmxError(code, _)) => assert_eq!(code, -1000),
        Err(_) => panic!("Expected DaqmxError::DaqmxError"),
        Ok(_) => panic!("Expected an error"),
    }
}

#[test]
fn string_property_size_error_other_warning_is_no_retry() {
    let text = CountingText::default();
    assert_eq!(string_property_size_error(&text, 200000), Ok(false));
    assert_eq!(text.extended_calls.get(), 0);
}

#[test]
fn success_code_does_not_fetch_text() {
    let text = CountingText::default();
    assert_eq!(handle_error(&text, 0), Ok(()));
    assert_eq!(text.extended_calls.get(), 0);
    assert_eq!(text.warning_calls.get(), 0);
}

#[test]
fn warning_code_is_success_and_is_reported() {
    let text = CountingText::default();
    for code in [1, 200026, i32::MAX] {
        assert_eq!(handle_error(&text, code), Ok(()));
    }
    assert_eq!(text.extended_calls.get(), 0);
    assert_eq!(text.warning_calls.get(), 3);
    let warnings = text.warnings.borrow();
    assert_eq!(warnings.len(), 3);
    assert_eq!(warnings[0], (1, "Something looks odd.".to_string()));
    assert_eq!(warnings[2].0, i32::MAX);
}

#[test]
fn fatal_code_carries_code_and_text_fetched_once() {
    for code in [-1, -200473, i32::MIN] {
        let text = CountingText::default();
        let r = handle_error(&text, code);
        assert_eq!(
            r,
            Err(DaqmxError::DaqmxError(code, "Device identifier is invalid.".to_string()))
        );
        assert_eq!(text.extended_calls.get(), 1);
        assert_eq!(text.warning_calls.get(), 0);
    }
}

/// Error text that is not valid UTF-8.
struct BrokenText;

impl ErrorText for BrokenText {
    fn get_extended_error_info(&self, buffer: &mut [i8]) -> i32 {
        buffer[0] = 0xFFu8 as i8;
        buffer[1] = 0;
        0
    }

    fn get_error_string(&self, _code: i32, buffer: &mut [i8]) -> i32 {
        buffer[0] = 0xFFu8 as i8;
        buffer[1] = 0;
        0
    }

    fn report_warning(&self, code: i32, message: &str) {
        assert_eq!(code, 5);
        assert_eq!(message, UNDECODABLE_WARNING);
    }
}

#[test]
fn undecodable_fatal_text_is_utf8_error() {
    assert_eq!(handle_error(&BrokenText, -5), Err(DaqmxError::Utf8Error));
    assert_eq!(handle_error(&BrokenText, 5), Ok(()));
}

#[test]
fn classify_codes() {
    assert_eq!(classify(0), Severity::Success);
    assert_eq!(classify(7), Severity::Warning);
    assert_eq!(classify(-7), Severity::Fatal);
}

#[test]
fn fatal_error_from_description() {
    assert_eq!(
        fatal_error(-3, Ok("x".to_string())),
        DaqmxError::DaqmxError(-3, "x".to_string())
    );
    assert_eq!(fatal_error(-3, Err(DaqmxError::Utf8Error)), DaqmxError::Utf8Error);
}

#[test]
fn read_arguments() {
    assert_eq!(requested_samples(None), -1);
    assert_eq!(requested_samples(Some(100)), 100);
    assert_eq!(requested_samples(Some(i32::MAX as u32)), i32::MAX);
    assert_eq!(requested_samples(Some(u32::MAX)), i32::MAX);
    assert_eq!(clamp_buffer_len(10), 10);
    assert_eq!(clamp_buffer_len(u32::MAX as usize), u32::MAX);
    assert_eq!(clamp_buffer_len(usize::MAX), u32::MAX);
}

#[test]
fn write_request_checks() {
    assert_eq!(write_request(0, None), Err(DaqmxError::EmptyWriteBuffer));
    assert_eq!(write_request(0, Some(4)), Err(DaqmxError::EmptyWriteBuffer));
    assert_eq!(write_request(9, None), Ok(-1));
    assert_eq!(write_request(9, Some(3)), Ok(3));
    assert_eq!(write_request(100, Some(100)), Ok(100));
    assert_eq!(write_request(9, Some(2)), Err(DaqmxError::SampleCountMismatch));
    assert_eq!(write_request(9, Some(0)), Err(DaqmxError::SampleCountMismatch));
    assert_eq!(write_request(9, Some(u32::MAX)), Err(DaqmxError::SampleCountMismatch));
}

#[test]
fn transfer_result_by_status() {
    let text = CountingText::default();
    assert_eq!(transfer_result(&text, 0, 12), Ok(12));
    assert_eq!(transfer_result(&text, 3, 5), Ok(5));
    assert!(matches!(transfer_result(&text, -9, 5), Err(DaqmxError::DaqmxError(-9, _))));
}

#[test]
fn string_size_from_probe() {
    let text = CountingText::default();
    assert_eq!(string_size(&text, 12), Ok(12));
    assert_eq!(string_size(&text, 0), Ok(0));
    assert!(matches!(string_size(&text, -200088), Err(DaqmxError::DaqmxError(-200088, _))));
    assert_eq!(text.extended_calls.get(), 1);
}

#[test]
fn finish_string_query_by_status() {
    let text = CountingText::default();
    assert_eq!(finish_string_query(&text, 0, vec![97, 98, 0]), Ok("ab".to_string()));
    assert_eq!(
        finish_string_query(&text, DAQmxErrorBufferTooSmallForString, vec![97, 0]),
        Err(DaqmxError::StringPropertyLengthChanged)
    );
    assert_eq!(
        finish_string_query(&text, DAQmxWarningCAPIStringTruncatedToFitBuffer, vec![97, 0]),
        Err(DaqmxError::StringPropertyLengthChanged)
    );
    assert!(matches!(finish_string_query(&text, -1, vec![97, 0]), Err(DaqmxError::DaqmxError(-1, _))));
    assert_eq!(finish_string_query(&text, 0, vec![0xFFu8 as i8, 0]), Err(DaqmxError::Utf8Error));
}

#[test]
fn lines_become_bools() {
    let lines = [0u8, 1, 255, 0, 2];
    let mut out = [true, false, false, true, false];
    lines_to_bools(&lines, &mut out);
    assert_eq!(out, [false, true, true, false, true]);
}

#[test]
fn property_text_keeps_interior_nul() {
    let text = CountingText::default();
    assert_eq!(finish_string_query(&text, 0, vec![65, 0, 66, 0]), Ok("A\0B".to_string()));
    assert_eq!(finish_string_query(&text, 0, vec![65, 66]), Ok("AB".to_string()));
    assert_eq!(finish_string_query(&text, 0, vec![]), Ok("".to_string()));
}

#[test]
fn values_beside_status() {
    let text = CountingText::default();
    assert_eq!(with_status(&text, 0, 1.5f64), Ok(1.5));
    assert_eq!(with_status(&text, 9, 'x'), Ok('x'));
    assert!(matches!(with_status(&text, -4, 0u8), Err(DaqmxError::DaqmxError(-4, _))));
    assert_eq!(auto_start_result(&text, 0, 7), Ok(true));
    assert_eq!(auto_start_result(&text, 0, 0), Ok(false));
    assert!(matches!(auto_start_result(&text, -2, 1), Err(DaqmxError::DaqmxError(-2, _))));
}

#[test]
fn digital_scalar_conversions() {
    assert_eq!(line_byte(0x1_02), 2);
    assert_eq!(line_byte(255), 255);
    assert!(line_set(0x100));
    assert!(!line_set(0));
}

#[test]
fn bools_converted_only_on_success() {
    let lines = [1u8, 0, 3];
    let mut buffer = [false, true, false];
    bools_from_lines(-1, &lines, &mut buffer);
    assert_eq!(buffer, [false, true, false]);
    bools_from_lines(0, &lines, &mut buffer);
    assert_eq!(buffer, [true, false, true]);
}

#[test]
fn clock_source_defaults_to_onboard_clock() {
    assert_eq!(clock_source(None), "OnboardClock");
    assert_eq!(clock_source(Some("/Dev1/PFI0")), "/Dev1/PFI0");
}

#[test]
fn error_and_warning_text_from_buffers() {
    assert_eq!(
        fatal_error_from_text(-7, vec![66, 97, 100, 0, 120]),
        DaqmxError::DaqmxError(-7, "Bad".to_string())
    );
    assert_eq!(fatal_error_from_text(-7, vec![0xFFu8 as i8, 0]), DaqmxError::Utf8Error);
    assert_eq!(warning_message(vec![79, 107, 0, 0]), Some("Ok".to_string()));
    assert_eq!(warning_message(vec![0xFFu8 as i8]), None);
}

#[test]
fn retry_decision() {
    let changed: Result<String, DaqmxError> = Err(DaqmxError::StringPropertyLengthChanged);
    assert!(should_retry(&changed, 2));
    assert!(!should_retry(&changed, 1));
    assert!(!should_retry(&Ok("x".to_string()), 5));
    assert!(!should_retry(&Err(DaqmxError::Utf8Error), 5));
}

#[test]
fn task_name_text_stops_at_first_nul_within_size() {
    let text = CountingText::default();
    assert_eq!(finish_name_query(&text, 0, vec![65, 0, 66, 0], 4), Ok("A".to_string()));
    assert_eq!(finish_name_query(&text, 0, vec![65, 66, 67, 0], 2), Ok("AB".to_string()));
    assert_eq!(
        finish_name_query(&text, DAQmxErrorBufferTooSmallForString, vec![65, 0], 2),
        Err(DaqmxError::StringPropertyLengthChanged)
    );
    assert!(matches!(finish_name_query(&text, -3, vec![0], 1), Err(DaqmxError::DaqmxError(-3, _))));
}
