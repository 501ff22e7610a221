use raspi_oled::sensor::{events_to_data, process_data, Edge, SensorError};

#[test]
fn test_process_data() {
	let x = process_data(&[
		1, 0, 0, 0, 0, 0, 0, 0, 1, 1, 1, 0, 1, 0, 1, 1, 1, 0, 0, 0, 0, 0, 0, 0, 1, 0, 0, 0, 0, 1, 1, 0, 0, 1, 1, 1, 0,
		0, 1, 1,
	])
	.unwrap();
	assert_eq!(471, x.0);
	assert_eq!(268, x.1);
}

fn bits_of(bytes: &[u8]) -> Vec<u8> {
	let mut out = vec![];
	for b in bytes {
		for i in (0..8).rev() {
			out.push((b >> i) & 1);
		}
	}
	out
}

#[test]
fn process_data_accepts_matching_checksum() {
	let bits = bits_of(&[0x01, 0xd7, 0x01, 0x0c, 0xe5]);
	assert_eq!(process_data(&bits), Ok((471, 268)));
}

#[test]
fn process_data_rejects_bad_checksum() {
	let bits = bits_of(&[0x01, 0xd7, 0x01, 0x0c, 0x00]);
	assert_eq!(process_data(&bits), Err(SensorError::ChecksumMismatch));
}

#[test]
fn process_data_rejects_implausible_humidity() {
	// 0x03e9 = 1001 tenths of a percent
	let bits = bits_of(&[0x03, 0xe9, 0x00, 0xc8]);
	assert_eq!(process_data(&bits), Err(SensorError::HumidityTooHigh));
}

#[test]
fn process_data_accepts_largest_humidity() {
	let bits = bits_of(&[0x03, 0xe8, 0x00, 0xc8]);
	assert_eq!(process_data(&bits), Ok((1000, 200)));
}

#[test]
fn events_to_data_reads_pulse_lengths() {
	let events = vec![
		(0, Edge::Falling),
		(80, Edge::Rising),
		(160, Edge::Falling),
		(210, Edge::Rising),
		(236, Edge::Falling),
		(290, Edge::Rising),
		(360, Edge::Falling),
	];
	// high pulses after the start answer: 80 µs -> 1, 26 µs -> 0, 70 µs -> 1
	assert_eq!(events_to_data(&events), vec![1, 0, 1]);
}

#[test]
fn events_to_data_of_single_event_is_empty() {
	assert_eq!(events_to_data(&vec![(5, Edge::Rising)]), Vec::<u8>::new());
}

use raspi_oled::sensor::{accept_reading, median};

#[test]
fn median_of_readings() {
	assert_eq!(median(vec![268, 251, 300, 259, 262]), Some(262));
	assert_eq!(median(vec![5, 1]), Some(5));
	assert_eq!(median(vec![]), None);
}

#[test]
fn implausible_readings_are_dropped() {
	assert!(accept_reading(471, 268));
	assert!(!accept_reading(0, 268));
	assert!(!accept_reading(471, 500));
}
