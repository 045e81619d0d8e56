//! Codec behaviour: round trips, field isolation, sign semantics, and the
//! totality of enumerated-field decoding.

use bq2577x::registers::Register;
use bq2577x::registers::AdcIbat;
use bq2577x::registers::BatteryOVP;
use bq2577x::registers::ChargeCurrent;
use bq2577x::registers::ChargeInhibit;
use bq2577x::registers::ChargeOption0;
use bq2577x::registers::ChargeVoltage;
use bq2577x::registers::ChrgStat;
use bq2577x::registers::CmpLatch;
use bq2577x::registers::Device;
use bq2577x::registers::IadptAmplifierRatio;
use bq2577x::registers::IbatAmplifierRatio;
use bq2577x::registers::IinDpmAutoDisable;
use bq2577x::registers::IinDpmEnable;
use bq2577x::registers::Ilim2Vth;
use bq2577x::registers::LdoModeEnable;
use bq2577x::registers::Learn;
use bq2577x::registers::LowPwrMode;
use bq2577x::registers::ModeStat;
use bq2577x::registers::OtgChrgOk;
use bq2577x::registers::OutOfAudio;
use bq2577x::registers::ProchotOption0;
use bq2577x::registers::PwmFrequency;
use bq2577x::registers::SystemUVP;
use bq2577x::registers::WdTmrAdj;

#[test]
fn raw_roundtrip_every_value() {
    for raw in 0..=u16::MAX {
        assert_eq!(ChargeOption0::from_bits(raw).into_bits(), raw);
        assert_eq!(ProchotOption0::from_bits(raw).into_bits(), raw);
        assert_eq!(AdcIbat::from_bits(raw).into_bits(), raw);
        assert_eq!(Device::from_bits(raw).into_bits(), raw);
    }
}

#[test]
fn raw_roundtrip_preserves_reserved_bits() {
    // Every bit of ChargeCurrent outside the 11-bit current field is
    // reserved; a decode/encode cycle must keep each one untouched.
    for raw in [0x0007u16, 0xc000, 0xc007, 0xffff, 0x5aa5] {
        assert_eq!(ChargeCurrent::from_bits(raw).into_bits(), raw);
    }
}

#[test]
fn structured_roundtrip_after_setters() {
    let mut option = ChargeOption0::from_bits(0xe70e);
    option.set_chrg_inhibit(ChargeInhibit::Disable);
    option.set_wdtmr_adj(WdTmrAdj::Seconds5);
    option.set_en_lwpwr(LowPwrMode::Disable);

    let decoded = ChargeOption0::from_bits(option.into_bits());
    assert_eq!(decoded.chrg_inhibit(), ChargeInhibit::Disable);
    assert_eq!(decoded.wdtmr_adj(), WdTmrAdj::Seconds5);
    assert_eq!(decoded.en_lwpwr(), LowPwrMode::Disable);
    assert_eq!(decoded, option);
}

#[test]
fn field_isolation_single_bit() {
    let original = ChargeOption0::from_bits(0xe70e);
    let mut changed = original;
    changed.set_chrg_inhibit(ChargeInhibit::Disable);

    let delta = original.into_bits() ^ changed.into_bits();
    assert_eq!(delta & !0x0001, 0);
    assert_eq!(changed.into_bits(), 0xe70f);
}

#[test]
fn field_isolation_two_bit_field() {
    let original = ChargeOption0::from_bits(0xe70e);
    let mut changed = original;
    changed.set_wdtmr_adj(WdTmrAdj::Disable);

    // Only the two watchdog bits (13 and 14) may differ.
    let delta = original.into_bits() ^ changed.into_bits();
    assert_eq!(delta & !(0x3 << 13), 0);
    assert_eq!(changed.wdtmr_adj(), WdTmrAdj::Disable);
    assert_eq!(changed.into_bits(), 0x870e);
}

#[test]
fn field_isolation_integer_field() {
    let original = ChargeVoltage::from_bits(0x8001);
    let mut changed = original;
    changed.set_voltage(0x1fff);

    let delta = original.into_bits() ^ changed.into_bits();
    assert_eq!(delta & !(0x1fff << 2), 0);
    assert_eq!(changed.voltage(), 0x1fff);
}

#[test]
fn sign_semantics_minimum() {
    // The all-ones high-bit pattern of the 16-bit signed current reading is
    // the field's documented minimum.
    assert_eq!(AdcIbat::from_bits(0x8000).current(), -32768);
}

#[test]
fn sign_semantics_range() {
    assert_eq!(AdcIbat::from_bits(0xffff).current(), -1);
    assert_eq!(AdcIbat::from_bits(0x7fff).current(), 32767);
    assert_eq!(AdcIbat::from_bits(0x0000).current(), 0);
    assert_eq!(AdcIbat::from_bits(0x0064).current(), 100);
}

#[test]
fn sign_semantics_encode() {
    let mut reading = AdcIbat::from_bits(0);
    reading.set_current(-32768);
    assert_eq!(reading.into_bits(), 0x8000);
    reading.set_current(-1);
    assert_eq!(reading.into_bits(), 0xffff);
    reading.set_current(32767);
    assert_eq!(reading.into_bits(), 0x7fff);
}

#[test]
fn charge_current_zero_roundtrip() {
    let mut setting = ChargeCurrent::from_bits(0);
    setting.set_current(0);
    assert_eq!(setting.into_bits(), 0x0000);

    let decoded = ChargeCurrent::from_bits(setting.into_bits());
    assert_eq!(decoded.current(), 0);
    assert_eq!(decoded, setting);
}

#[test]
fn charge_option0_reset_field_combination() {
    // The canonical fixture: the power-on reset raw value decomposes into
    // the documented field combination.
    let option = ChargeOption0::from_bits(0xe70e);
    assert_eq!(option.chrg_inhibit(), ChargeInhibit::Enable);
    assert_eq!(option.iin_dpm_enable(), IinDpmEnable::Enable);
    assert_eq!(option.en_ldo(), LdoModeEnable::Enable);
    assert_eq!(option.ibat_gain(), IbatAmplifierRatio::Times64);
    assert_eq!(option.iadpt_gain(), IadptAmplifierRatio::Times20);
    assert_eq!(option.en_learn(), Learn::Disable);
    assert_eq!(option.vsys_uvp_enz(), SystemUVP::Enable);
    assert_eq!(option.en_batovp(), BatteryOVP::Enable);
    assert_eq!(option.pwm_freq(), PwmFrequency::KHz600);
    assert_eq!(option.en_ooa(), OutOfAudio::Limit);
    assert_eq!(option.otg_on_chrgok(), OtgChrgOk::Disable);
    assert_eq!(option.iin_dpm_auto_disable(), IinDpmAutoDisable::Disable);
    assert_eq!(option.en_cmp_latch(), CmpLatch::NoLatch);
    assert_eq!(option.wdtmr_adj(), WdTmrAdj::Seconds175);
    assert_eq!(option.en_lwpwr(), LowPwrMode::Enable);
}

#[test]
fn enum_decode_is_total() {
    // Every possible numeric code of an enumerated field decodes to some
    // variant; none may fail.
    for code in 0..=u8::MAX {
        let _ = Ilim2Vth::from_bits(code);
        let _ = ChrgStat::from_bits(code);
        let _ = ModeStat::from_bits(code);
        let _ = WdTmrAdj::from_bits(code);
    }
}

#[test]
fn sparse_enum_fallback() {
    // Codes 1 through 30 of the 5-bit threshold field are declared; the
    // undeclared codes 0 and 31 fall back to the last declared variant.
    assert_eq!(Ilim2Vth::from_bits(0), Ilim2Vth::Percent450);
    assert_eq!(Ilim2Vth::from_bits(31), Ilim2Vth::Percent450);
    assert_eq!(Ilim2Vth::from_bits(1), Ilim2Vth::Percent110);
    assert_eq!(Ilim2Vth::from_bits(30), Ilim2Vth::Percent450);
    assert_eq!(Ilim2Vth::from_bits(29), Ilim2Vth::Percent400);

    // The 3-bit charge status: codes 5 and 6 are reserved and fall back to
    // the last declared variant.
    assert_eq!(ChrgStat::from_bits(5), ChrgStat::ChargeTerminationDone);
    assert_eq!(ChrgStat::from_bits(6), ChrgStat::ChargeTerminationDone);
    assert_eq!(ChrgStat::from_bits(7), ChrgStat::ChargeTerminationDone);
}

#[test]
fn enum_code_roundtrip() {
    // Decoding the code of a declared variant yields that variant back.
    let ilim_values = [
        Ilim2Vth::Percent110,
        Ilim2Vth::Percent150,
        Ilim2Vth::Percent230,
        Ilim2Vth::Percent450,
    ];
    for v in ilim_values {
        assert_eq!(Ilim2Vth::from_bits(v.into_bits()), v);
    }

    for v in [SystemUVP::Enable, SystemUVP::Disable] {
        assert_eq!(SystemUVP::from_bits(v.into_bits()), v);
    }

    let mode_values = [
        ModeStat::QuasiDualNormalCompFsw600kHz,
        ModeStat::QuasiDualNormalCompFsw800kHz,
        ModeStat::QuasiDualSlowCompFsw600kHz,
        ModeStat::QuasiDualSlowCompFsw800kHz,
        ModeStat::NormalCompFsw600kHz,
        ModeStat::NormalCompFsw800kHz,
        ModeStat::SlowCompFsw600kHz,
        ModeStat::SlowCompFsw800kHz,
    ];
    for v in mode_values {
        assert_eq!(ModeStat::from_bits(v.into_bits()), v);
    }
}
