use daqmx::constants::{
    DAQmx_Val_ContSamps,
    DAQmx_Val_CounterOutputEvent,
    DAQmx_Val_Falling,
    DAQmx_Val_FiniteSamps,
    DAQmx_Val_GroupByChannel,
    DAQmx_Val_GroupByScanNumber,
    DAQmx_Val_HWTimedSinglePoint,
    DAQmx_Val_Rising,
};
use daqmx::channels::{AnalogTerminalConfig, VoltageScale};
use daqmx::error::DaqmxError;
use daqmx::text::{buffer_to_string, check_c_string};
use daqmx::types::{ClockEdge, CountDirection, DataFillMode, ExportSignal, IdleState, SampleMode};

#[test]
fn test_error_buffer_to_string_good() {
    let buffer: Vec<i8> = vec![68, 101, 118, 105, 99, 101, 32, 105, 100, 101, 110, 0, 0, 0];
    let string = buffer_to_string(buffer).unwrap();
    assert_eq!(&string, "Device iden");
}

#[test]
fn test_error_buffer_to_string_no_null() {
    let buffer: Vec<i8> = vec![68, 101, 118, 105, 99, 101, 32, 105, 100, 101, 110];
    let string = buffer_to_string(buffer).unwrap();
    assert_eq!(&string, "Device iden");
}

#[test]
fn buffer_to_string_stops_at_first_nul() {
    let buffer: Vec<i8> = vec![65, 66, 0, 67, 68, 0];
    assert_eq!(buffer_to_string(buffer).unwrap(), "AB");
}

#[test]
fn buffer_to_string_empty_and_leading_nul() {
    assert_eq!(buffer_to_string(vec![]).unwrap(), "");
    assert_eq!(buffer_to_string(vec![0, 65, 66]).unwrap(), "");
}

#[test]
fn buffer_to_string_multibyte_text() {
    // "é" is 0xC3 0xA9 in UTF-8.
    let buffer: Vec<i8> = vec![0xC3u8 as i8, 0xA9u8 as i8, 0];
    assert_eq!(buffer_to_string(buffer).unwrap(), "é");
}

#[test]
fn buffer_to_string_rejects_invalid_utf8() {
    let buffer: Vec<i8> = vec![65, 0xFFu8 as i8, 66, 0];
    assert_eq!(buffer_to_string(buffer), Err(DaqmxError::Utf8Error));
}

#[test]
fn check_c_string_finds_first_nul() {
    assert_eq!(check_c_string("Dev1/ai0"), Ok(()));
    assert_eq!(check_c_string(""), Ok(()));
    assert_eq!(check_c_string("ab\0c\0"), Err(DaqmxError::CStringError(2)));
}

#[test]
fn edge_conversion_tests() {
    assert_eq!(i32::from(ClockEdge::Rising), DAQmx_Val_Rising);
    assert_eq!(i32::from(ClockEdge::Falling), DAQmx_Val_Falling);
}

#[test]
fn sample_mode_conversion_tests() {
    assert_eq!(i32::from(SampleMode::FiniteSamples), DAQmx_Val_FiniteSamps);
    assert_eq!(i32::from(SampleMode::ContinuousSamples), DAQmx_Val_ContSamps);
    assert_eq!(
        i32::from(SampleMode::HardwareTimedSinglePoint),
        DAQmx_Val_HWTimedSinglePoint
    );
}

#[test]
fn driver_code_values() {
    assert_eq!(DAQmx_Val_Rising, 10280);
    assert_eq!(DAQmx_Val_Falling, 10171);
    assert_eq!(DAQmx_Val_FiniteSamps, 10178);
    assert_eq!(DAQmx_Val_ContSamps, 10123);
    assert_eq!(DAQmx_Val_HWTimedSinglePoint, 12522);
    assert_eq!(i32::from(ExportSignal::CounterOutputEvent), DAQmx_Val_CounterOutputEvent);
    assert_eq!(i32::from(IdleState::Low), 10214);
    assert_eq!(i32::from(IdleState::High), 10192);
    assert_eq!(i32::from(CountDirection::CountDown), 10124);
}

#[test]
fn fill_mode_codes() {
    assert_eq!(DataFillMode::GroupByChannel.code(), DAQmx_Val_GroupByChannel);
    assert_eq!(DataFillMode::GroupByScanNumber.code(), DAQmx_Val_GroupByScanNumber);
}

#[test]
fn default_edge_is_rising() {
    assert_eq!(ClockEdge::default(), ClockEdge::Rising);
}

#[test]
fn terminal_config_round_trip() {
    for config in [
        AnalogTerminalConfig::Default,
        AnalogTerminalConfig::RSE,
        AnalogTerminalConfig::NRSE,
        AnalogTerminalConfig::Differential,
        AnalogTerminalConfig::PseudoDifferential,
    ] {
        assert_eq!(AnalogTerminalConfig::from_code(config.code()), Ok(config));
    }
    assert_eq!(AnalogTerminalConfig::RSE.code(), 10083);
    match AnalogTerminalConfig::from_code(12345) {
        Err(DaqmxError::UnexpectedValue(_, v)) => assert_eq!(v, 12345),
        other => panic!("unexpected: {:?}", other),
    }
}

#[test]
fn voltage_scale_codes() {
    assert_eq!(VoltageScale::from_code(10348), Ok(VoltageScale::Volts));
    assert_eq!(VoltageScale::from_code(10065), Ok(VoltageScale::CustomScale(None)));
    assert_eq!(VoltageScale::from_code(12516), Ok(VoltageScale::FromTEDS));
    assert!(matches!(VoltageScale::from_code(1), Err(DaqmxError::UnexpectedValue(_, 1))));
    assert_eq!(VoltageScale::CustomScale(Some("TestScale".to_string())).scale_name(), "TestScale");
    assert_eq!(VoltageScale::Volts.scale_name(), "");
    assert_eq!(VoltageScale::Volts.code(), 10348);
}
