//! Bus protocol framing: exact byte sequences of read and write
//! transactions, and the lossless reassembly of reply bytes.

use bq2577x::channel::parse_reply;
use bq2577x::channel::read_request;
use bq2577x::channel::reply_len;
use bq2577x::channel::write_frame;
use bq2577x::channel::BUS_ADDRESS;
use bq2577x::registers::Register;
use bq2577x::registers::ChargeOption0;
use bq2577x::registers::ChargeVoltage;
use bq2577x::registers::Device;

#[test]
fn bus_address_is_fixed() {
    assert_eq!(BUS_ADDRESS, 0x09);
}

#[test]
fn read_writes_one_address_byte_and_reads_two() {
    // A read of the device-identification register at address 0xff puts
    // exactly the one byte 0xff on the bus and expects two bytes back.
    let request = read_request::<Device>();
    assert_eq!(request, vec![0xff]);
    assert_eq!(reply_len(), 2);
}

#[test]
fn write_sends_address_then_big_endian_value() {
    // A write of raw 0xe70e to the register at address 0x12 puts exactly
    // the three bytes [0x12, 0xe7, 0x0e] on the bus.
    let frame = write_frame(ChargeOption0::from_bits(0xe70e));
    assert_eq!(frame, vec![0x12, 0xe7, 0x0e]);
}

#[test]
fn write_frame_is_big_endian() {
    let frame = write_frame(ChargeVoltage::from_bits(0x1234));
    assert_eq!(frame, vec![ChargeVoltage::addr(), 0x12, 0x34]);

    let frame = write_frame(ChargeVoltage::from_bits(0x00ff));
    assert_eq!(frame, vec![ChargeVoltage::addr(), 0x00, 0xff]);

    let frame = write_frame(ChargeVoltage::from_bits(0xff00));
    assert_eq!(frame, vec![ChargeVoltage::addr(), 0xff, 0x00]);
}

#[test]
fn reply_bytes_reassemble_losslessly() {
    for raw in 0..=u16::MAX {
        let frame = write_frame(ChargeOption0::from_bits(raw));
        let back: ChargeOption0 = parse_reply(frame[1], frame[2]);
        assert_eq!(back.into_bits(), raw);
    }
}
