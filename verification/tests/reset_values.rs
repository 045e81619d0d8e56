//! Power-on reset values of every register, exercised through the bus
//! protocol helpers: a read request carries the register's address, the two
//! reply bytes reassemble to the documented reset value, and re-encoding
//! the decoded register reproduces that value bit for bit.

use bq2577x::channel::parse_reply;
use bq2577x::channel::read_request;
use bq2577x::channel::reply_len;
use bq2577x::registers::Register;
use bq2577x::registers::AdcCmpinTr;
use bq2577x::registers::AdcIbat;
use bq2577x::registers::AdcIin;
use bq2577x::registers::AdcOption;
use bq2577x::registers::AdcPsys;
use bq2577x::registers::AdcVbat;
use bq2577x::registers::AdcVbus;
use bq2577x::registers::AdcVsys;
use bq2577x::registers::AutoCharge;
use bq2577x::registers::AutotuneForce;
use bq2577x::registers::AutotuneRead;
use bq2577x::registers::ChargeCurrent;
use bq2577x::registers::ChargeOption0;
use bq2577x::registers::ChargeOption1;
use bq2577x::registers::ChargeOption2;
use bq2577x::registers::ChargeOption3;
use bq2577x::registers::ChargeOption4;
use bq2577x::registers::ChargeOption5;
use bq2577x::registers::ChargeProfile;
use bq2577x::registers::ChargeVoltage;
use bq2577x::registers::ChargerStatus0;
use bq2577x::registers::ChargerStatus1;
use bq2577x::registers::Device;
use bq2577x::registers::GateDrive;
use bq2577x::registers::GmAdjustForce;
use bq2577x::registers::IinDpm;
use bq2577x::registers::IinHost;
use bq2577x::registers::Manufacturer;
use bq2577x::registers::OtgCurrent;
use bq2577x::registers::OtgVoltage;
use bq2577x::registers::ProchotOption0;
use bq2577x::registers::ProchotOption1;
use bq2577x::registers::ProchotStatus;
use bq2577x::registers::VinDpm;
use bq2577x::registers::VirtualControl;
use bq2577x::registers::VminActiveProtection;
use bq2577x::registers::VsysMin;

fn check_reset<R: Register>(value: u16) {
    let request = read_request::<R>();
    assert_eq!(request, vec![R::addr()]);
    assert_eq!(reply_len(), 2);

    let bytes = value.to_be_bytes();
    let reset: R = parse_reply(bytes[0], bytes[1]);
    assert_eq!(reset.into_bits(), value);
}

#[test]
fn test_reset_of_registers() {
    check_reset::<ChargeOption0>(0xe70e);
    check_reset::<ChargeCurrent>(0);
    check_reset::<ChargeVoltage>(0);
    check_reset::<ChargeProfile>(0x3020);
    check_reset::<GateDrive>(0x246c);
    check_reset::<ChargeOption5>(0x0685);
    check_reset::<AutoCharge>(0x01c2);
    check_reset::<ChargerStatus0>(0);
    check_reset::<ChargerStatus1>(0);
    check_reset::<ProchotStatus>(0x3800);
    check_reset::<IinDpm>(0x0320);
    check_reset::<AdcVbus>(0);
    check_reset::<AdcIbat>(0);
    check_reset::<AdcIin>(0);
    check_reset::<AdcVsys>(0);
    check_reset::<AdcVbat>(0);
    check_reset::<AdcPsys>(0);
    check_reset::<AdcCmpinTr>(0);
    check_reset::<ChargeOption1>(0x3201);
    check_reset::<ChargeOption2>(0x00b7);
    check_reset::<ChargeOption3>(0x0534);
    check_reset::<ProchotOption0>(0x4a39);
    check_reset::<ProchotOption1>(0x41a0);
    check_reset::<AdcOption>(0x9000);
    check_reset::<ChargeOption4>(0x0048);
    check_reset::<VminActiveProtection>(0x0024);
    check_reset::<OtgVoltage>(0x03e8);
    check_reset::<OtgCurrent>(0x01e0);
    check_reset::<VinDpm>(0x0280);
    check_reset::<VsysMin>(0x0528);
    check_reset::<IinHost>(0x0320);
    check_reset::<AutotuneRead>(0);
    check_reset::<AutotuneForce>(0xa8a8);
    check_reset::<GmAdjustForce>(0x00c7);
    check_reset::<VirtualControl>(0x0013);
    check_reset::<Manufacturer>(0x0040);
    check_reset::<Device>(0x000a);
}

#[test]
fn new_matches_power_on_reset() {
    assert_eq!(ChargeOption0::new().into_bits(), 0xe70e);
    assert_eq!(ChargeProfile::new().into_bits(), 0x3020);
    assert_eq!(GateDrive::new().into_bits(), 0x246c);
    assert_eq!(ProchotStatus::new().into_bits(), 0x3800);
    assert_eq!(IinDpm::new().into_bits(), 0x0320);
    assert_eq!(OtgVoltage::new().into_bits(), 0x03e8);
    assert_eq!(OtgCurrent::new().into_bits(), 0x01e0);
    assert_eq!(VsysMin::new().into_bits(), 0x0528);
    assert_eq!(AutotuneForce::new().into_bits(), 0xa8a8);
    assert_eq!(VirtualControl::new().into_bits(), 0x0013);
    assert_eq!(Manufacturer::new().into_bits(), 0x0040);
    assert_eq!(Device::new().into_bits(), 0x000a);
}

#[test]
fn device_identification_after_reset() {
    let device = Device::new();
    assert_eq!(device.into_bits(), 0x000a);
    assert_eq!(device.id(), 0x0a);

    let read: Device = parse_reply(0x00, 0x0a);
    assert_eq!(read.id(), 0x0a);
}

#[test]
fn manufacturer_identification_after_reset() {
    let manufacturer = Manufacturer::new();
    assert_eq!(manufacturer.into_bits(), 0x0040);
    assert_eq!(manufacturer.id(), 0x40);

    let read: Manufacturer = parse_reply(0x00, 0x40);
    assert_eq!(read.id(), 0x40);
}
