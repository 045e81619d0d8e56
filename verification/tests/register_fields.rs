//! Field decompositions of further registers, checked against their
//! documented power-on reset values, and integer fields at their range
//! limits.

use bq2577x::registers::Register;
use bq2577x::registers::AdcEn;
use bq2577x::registers::AdcOption;
use bq2577x::registers::AdcRate;
use bq2577x::registers::AdcSample;
use bq2577x::registers::BatOvpExtend;
use bq2577x::registers::ChargeProfile;
use bq2577x::registers::DrvStat;
use bq2577x::registers::GateDrive;
use bq2577x::registers::IlimHiZ;
use bq2577x::registers::Otg;
use bq2577x::registers::RegReset;
use bq2577x::registers::VirtualControl;
use bq2577x::registers::VminActiveProtection;
use bq2577x::registers::VsysRegSlow;
use bq2577x::registers::WdRst;
use bq2577x::registers::WdTmrAdj;

#[test]
fn virtual_control_reset_field_combination() {
    let control = VirtualControl::new();
    assert_eq!(control.into_bits(), 0x0013);
    assert_eq!(control.wdtmr_adj(), WdTmrAdj::Seconds175);
    assert_eq!(control.wd_rst(), WdRst::Normal);
    assert_eq!(control.en_extilim(), IlimHiZ::Enable);
    assert_eq!(control.reg_reset(), RegReset::Idle);
    assert_eq!(control.en_otg(), Otg::Disable);
}

#[test]
fn gate_drive_reset_field_combination() {
    let drive = GateDrive::from_bits(0x246c);
    assert_eq!(drive.vsys_reg_slow(), VsysRegSlow::Disable);
    assert_eq!(drive.lodrv2_stat(), DrvStat::Scale3);
    assert_eq!(drive.hidrv2_stat(), DrvStat::Scale3);
    assert_eq!(drive.batovp_extend(), BatOvpExtend::Disable);
    assert_eq!(drive.lodrv1_stat(), DrvStat::Scale1);
    assert_eq!(drive.hidrv1_stat(), DrvStat::Scale1);
}

#[test]
fn adc_option_reset_field_combination() {
    let option = AdcOption::from_bits(0x9000);
    assert_eq!(option.adc_rate(), AdcRate::OneShot);
    assert_eq!(option.adc_en(), AdcEn::Disable);
    assert_eq!(option.adc_sample(), AdcSample::Bits14);
}

#[test]
fn charge_profile_byte_fields() {
    let profile = ChargeProfile::from_bits(0x3020);
    assert_eq!(profile.iterm(), 0x20);
    assert_eq!(profile.iprechg(), 0x30);

    let mut changed = profile;
    changed.set_iterm(0xff);
    assert_eq!(changed.iterm(), 0xff);
    assert_eq!(changed.iprechg(), 0x30);
    assert_eq!(changed.into_bits(), 0x30ff);
}

#[test]
fn integer_field_range_limits() {
    let mut protection = VminActiveProtection::from_bits(0);
    protection.set_vsys_th2(0x3f);
    assert_eq!(protection.vsys_th2(), 0x3f);
    assert_eq!(protection.into_bits(), 0x3f << 2);

    protection.set_vbus_vap_th(0x7f);
    assert_eq!(protection.vbus_vap_th(), 0x7f);
    assert_eq!(protection.vsys_th2(), 0x3f);

    protection.set_vsys_th2(0);
    assert_eq!(protection.vsys_th2(), 0);
    assert_eq!(protection.vbus_vap_th(), 0x7f);
}
