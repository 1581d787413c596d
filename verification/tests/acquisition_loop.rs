use thermal_calibrator::acquisition::{
    AcquisitionLoop, AcquisitionOp, AcquisitionStage, POLL_INTERVAL_MS, STOP_MU_ID, STREAM_FREQUENCY_HZ,
    STREAM_PACKET_SIZE, STREAM_SENSOR_ID,
};
use thermal_calibrator::serial::SerialDevice;

#[test]
fn stream_constants() {
    assert_eq!(POLL_INTERVAL_MS, 10);
    assert_eq!(STREAM_SENSOR_ID, 0x04);
    assert_eq!(STREAM_FREQUENCY_HZ, 100);
    assert_eq!(STREAM_PACKET_SIZE, 128);
    assert_eq!(STOP_MU_ID, 0x01);
}

#[test]
fn stream_is_started_polled_and_stopped() {
    let link = SerialDevice::new("/dev/ttyUSB1", 115200, 7, 0);
    let mut acq = AcquisitionLoop::new(Some(&link));
    assert_eq!(acq.stage(), AcquisitionStage::Created);
    assert_eq!(acq.poll(true), AcquisitionOp::StartStreaming(vec![0x00, 0xF1, 0x04, 0x00, 0x64, 0x80]));
    for _ in 0..5 {
        assert_eq!(acq.poll(true), AcquisitionOp::Poll);
        assert_eq!(acq.stage(), AcquisitionStage::Streaming);
    }
    assert_eq!(acq.poll(false), AcquisitionOp::StopStreaming(vec![0x01, 0xF2, 0x04]));
    assert_eq!(acq.poll(true), AcquisitionOp::Exit);
    assert_eq!(acq.stage(), AcquisitionStage::Done);
    assert_eq!(acq.poll(true), AcquisitionOp::Exit);
}

#[test]
fn start_request_carries_the_local_id() {
    let link = SerialDevice::new("/dev/ttyUSB1", 115200, 7, 0x2B);
    let mut acq = AcquisitionLoop::new(Some(&link));
    assert_eq!(acq.poll(true), AcquisitionOp::StartStreaming(vec![0x2B, 0xF1, 0x04, 0x00, 0x64, 0x80]));
}

#[test]
fn stream_is_started_whatever_the_flag() {
    let link = SerialDevice::new("/dev/ttyUSB1", 115200, 7, 0);
    let mut acq = AcquisitionLoop::new(Some(&link));
    assert!(matches!(acq.poll(false), AcquisitionOp::StartStreaming(_)));
    assert_eq!(acq.poll(false), AcquisitionOp::StopStreaming(vec![0x01, 0xF2, 0x04]));
    assert_eq!(acq.poll(false), AcquisitionOp::Exit);
}

#[test]
fn failed_start_leaves_without_a_stop_request() {
    let link = SerialDevice::new("/dev/ttyUSB1", 115200, 7, 0);
    let mut acq = AcquisitionLoop::new(Some(&link));
    assert!(matches!(acq.poll(true), AcquisitionOp::StartStreaming(_)));
    acq.start_failed();
    assert_eq!(acq.stage(), AcquisitionStage::Done);
    assert_eq!(acq.poll(true), AcquisitionOp::Exit);
}

#[test]
fn late_failure_report_changes_nothing() {
    let link = SerialDevice::new("/dev/ttyUSB1", 115200, 7, 0);
    let mut acq = AcquisitionLoop::new(Some(&link));
    acq.start_failed();
    assert_eq!(acq.stage(), AcquisitionStage::Created);
    acq.poll(true);
    acq.poll(true);
    acq.start_failed();
    assert_eq!(acq.stage(), AcquisitionStage::Streaming);
    assert_eq!(acq.poll(true), AcquisitionOp::Poll);
}

#[test]
fn loop_without_a_link_leaves_at_once() {
    let mut acq = AcquisitionLoop::new(None);
    assert_eq!(acq.poll(true), AcquisitionOp::Exit);
    assert_eq!(acq.stage(), AcquisitionStage::Done);
}

#[test]
fn only_batches_with_bytes_are_forwarded() {
    assert_eq!(AcquisitionLoop::forward(vec![1, 2, 3]), Some(vec![1, 2, 3]));
    assert_eq!(AcquisitionLoop::forward(vec![0]), Some(vec![0]));
    assert_eq!(AcquisitionLoop::forward(vec![]), None);
}
