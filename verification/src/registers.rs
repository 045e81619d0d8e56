//! The register catalog of the chip.
//!
//! Every register is 16 bits wide and sits at a fixed one-byte bus address.
//! Each register module defines the structured form of its register: a
//! wrapper around the raw 16-bit value with one typed accessor pair per
//! documented field.  Reserved bits have no accessors and travel through
//! decode and encode verbatim.

use vstd::prelude::*;

pub mod adc_cmpin_tr;
pub mod adc_ibat;
pub mod adc_iin;
pub mod adc_option;
pub mod adc_psys;
pub mod adc_vbat;
pub mod adc_vbus;
pub mod adc_vsys;
pub mod auto_charge;
pub mod autotune_force;
pub mod autotune_read;
pub mod charge_current;
pub mod charge_option0;
pub mod charge_option1;
pub mod charge_option2;
pub mod charge_option3;
pub mod charge_option4;
pub mod charge_option5;
pub mod charge_profile;
pub mod charge_voltage;
pub mod charger_status0;
pub mod charger_status1;
pub mod device;
pub mod gate_drive;
pub mod gm_adjust_force;
pub mod iin_dpm;
pub mod iin_host;
pub mod manufacturer;
pub mod otg_current;
pub mod otg_voltage;
pub mod prochot_option0;
pub mod prochot_option1;
pub mod prochot_status;
pub mod vin_dpm;
pub mod virtual_control;
pub mod vmin_active_protection;
pub mod vsys_min;

pub use adc_cmpin_tr::AdcCmpinTr;
pub use adc_ibat::AdcIbat;
pub use adc_iin::AdcIin;
pub use adc_option::AdcOption;
pub use adc_option::EnAdcVbat;
pub use adc_option::EnAdcVsys;
pub use adc_option::EnAdcIbat;
pub use adc_option::EnAdcIin;
pub use adc_option::EnAdcPsys;
pub use adc_option::EnAdcVbus;
pub use adc_option::EnAdcCmpin;
pub use adc_option::AdcAvgInit;
pub use adc_option::AdcAvg;
pub use adc_option::AdcSample;
pub use adc_option::AdcEn;
pub use adc_option::AdcRate;
pub use adc_psys::AdcPsys;
pub use adc_vbat::AdcVbat;
pub use adc_vbus::AdcVbus;
pub use adc_vsys::AdcVsys;
pub use auto_charge::AutoCharge;
pub use auto_charge::AcovProtection;
pub use auto_charge::TRegDeg;
pub use auto_charge::StatThermal;
pub use auto_charge::PPThermal;
pub use auto_charge::EnTReg;
pub use auto_charge::EnChgTmr;
pub use auto_charge::EnTmr2x;
pub use auto_charge::ChgTmr;
pub use auto_charge::ChrgOkInt;
pub use autotune_force::AutotuneForce;
pub use autotune_read::AutotuneRead;
pub use charge_current::ChargeCurrent;
pub use charge_option0::ChargeOption0;
pub use charge_option0::ChargeInhibit;
pub use charge_option0::IinDpmEnable;
pub use charge_option0::LdoModeEnable;
pub use charge_option0::IbatAmplifierRatio;
pub use charge_option0::IadptAmplifierRatio;
pub use charge_option0::Learn;
pub use charge_option0::SystemUVP;
pub use charge_option0::CmpLatch;
pub use charge_option0::BatteryOVP;
pub use charge_option0::PwmFrequency;
pub use charge_option0::OutOfAudio;
pub use charge_option0::OtgChrgOk;
pub use charge_option0::IinDpmAutoDisable;
pub use charge_option0::LowPwrMode;
pub use charge_option1::ChargeOption1;
pub use charge_option1::VbusAcp;
pub use charge_option1::ShipDchg;
pub use charge_option1::Ptm;
pub use charge_option1::FrcConvOff;
pub use charge_option1::CmpDeg;
pub use charge_option1::CmpPol;
pub use charge_option1::SysOvpMax;
pub use charge_option1::EnOtgBigCap;
pub use charge_option1::PsysGain;
pub use charge_option1::RsnsRsr;
pub use charge_option1::RsnsRac;
pub use charge_option1::PsysConfig;
pub use charge_option1::EnLwPwrCmp;
pub use charge_option1::EnIbat;
pub use charge_option2::ChargeOption2;
pub use charge_option2::BatDocVth;
pub use charge_option2::EnBatDoc;
pub use charge_option2::AcocVth;
pub use charge_option2::EnAcoc;
pub use charge_option2::OcpSw1x;
pub use charge_option2::OcpSw2;
pub use charge_option2::EnIchgIdchg;
pub use charge_option2::EnExtIlim;
pub use charge_option2::PkPwrTmax;
pub use charge_option2::StatPkPwrRelax;
pub use charge_option2::StatPkPwrOvld;
pub use charge_option2::EnPkPwrVsys;
pub use charge_option2::EnPkPwrIinDpm;
pub use charge_option2::PkPwrTovldDeg;
pub use charge_option3::ChargeOption3;
pub use charge_option3::PsysOtgIdchg;
pub use charge_option3::BatFetOffHiZ;
pub use charge_option3::CmpEn;
pub use charge_option3::IlAvg;
pub use charge_option3::OtgVapMode;
pub use charge_option3::BatFetEnZ;
pub use charge_option3::EnVsysMinSoftSr;
pub use charge_option3::EnPortCtrl;
pub use charge_option3::EnIcoMode;
pub use charge_option3::EnOtg;
pub use charge_option3::DetectVinDpm;
pub use charge_option3::EnHiZ;
pub use charge_option4::ChargeOption4;
pub use charge_option4::StatPtm;
pub use charge_option4::StatIdchg2;
pub use charge_option4::PPIdchg2;
pub use charge_option4::Idchg2Threshold;
pub use charge_option4::IdchgDeg2;
pub use charge_option4::StatVbusVap;
pub use charge_option4::PPVbusVap;
pub use charge_option4::Hiccup;
pub use charge_option4::Dither;
pub use charge_option4::VsysUvp;
pub use charge_option5::ChargeOption5;
pub use charge_option5::PhDropDeg;
pub use charge_option5::PhAddDeg;
pub use charge_option5::ForceSingle;
pub use charge_option5::BuckTransitionThreshold;
pub use charge_option5::HighDutyBuck;
pub use charge_option5::BatCocConfig;
pub use charge_option5::RegnLwPwr;
pub use charge_option5::RegnExt;
pub use charge_option5::Function;
pub use charge_option5::PtmAutoExit;
pub use charge_profile::ChargeProfile;
pub use charge_voltage::ChargeVoltage;
pub use charger_status0::ChargerStatus0;
pub use charger_status0::Fault;
pub use charger_status0::ModeStat;
pub use charger_status0::TRegStat;
pub use charger_status0::ChgTmrStat;
pub use charger_status0::ChrgStat;
pub use charger_status1::ChargerStatus1;
pub use device::Device;
pub use gate_drive::GateDrive;
pub use gate_drive::VsysRegSlow;
pub use gate_drive::DrvStat;
pub use gate_drive::BatOvpExtend;
pub use gm_adjust_force::GmAdjustForce;
pub use gm_adjust_force::ForceAutotune;
pub use gm_adjust_force::ForceGmAdjust;
pub use gm_adjust_force::ForceUpdate;
pub use iin_dpm::IinDpm;
pub use iin_host::IinHost;
pub use manufacturer::Manufacturer;
pub use otg_current::OtgCurrent;
pub use otg_voltage::OtgVoltage;
pub use prochot_option0::ProchotOption0;
pub use prochot_option0::LowerProchotVinDpm;
pub use prochot_option0::InomDeg;
pub use prochot_option0::ProchotVinDpm;
pub use prochot_option0::IcritDeg;
pub use prochot_option0::Ilim2Vth;
pub use prochot_option1::ProchotOption1;
pub use prochot_option1::PPAcok;
pub use prochot_option1::PPBatPres;
pub use prochot_option1::PPVsys;
pub use prochot_option1::PPIdchg1;
pub use prochot_option1::PPInom;
pub use prochot_option1::PPIcrit;
pub use prochot_option1::PPCmp;
pub use prochot_option1::PPVinDpm;
pub use prochot_option1::IdchgDeg1;
pub use prochot_status::ProchotStatus;
pub use prochot_status::StatAdapterRemoval;
pub use prochot_status::StatBatteryRemoval;
pub use prochot_status::StatVsys;
pub use prochot_status::StatIdchg1;
pub use prochot_status::StatInom;
pub use prochot_status::StatIcrit;
pub use prochot_status::StatComp;
pub use prochot_status::StatVinDpm;
pub use prochot_status::StatExitVap;
pub use prochot_status::StatVapFail;
pub use prochot_status::Tshut;
pub use prochot_status::ProchotClear;
pub use prochot_status::ProchotWidth;
pub use prochot_status::EnProchotExt;
pub use vin_dpm::VinDpm;
pub use virtual_control::VirtualControl;
pub use virtual_control::IlimHiZ;
pub use virtual_control::Otg;
pub use vmin_active_protection::VminActiveProtection;
pub use vmin_active_protection::FastRoleSwap;
pub use vmin_active_protection::Follow;
pub use vmin_active_protection::BatOvpDchrg;
pub use vsys_min::VsysMin;

verus! {

/// One 16-bit register of the chip: a lossless codec between the raw value
/// the device stores and the structured form, plus the register's fixed bus
/// address.
///
/// The two lemmas are the round-trip law of the codec: encoding a decoded
/// raw value reproduces it bit for bit, reserved bits included, and decoding
/// an encoded structured value reproduces the structured value.
pub trait Register: Sized {
    /// The raw 16-bit value this structured value encodes to.
    spec fn spec_bits(self) -> u16;

    /// The register's bus address.
    spec fn spec_addr() -> u8;

    /// The structured value a raw 16-bit value decodes to.
    spec fn spec_of_bits(bits: u16) -> Self;

    /// Decodes a raw register value; total, defined for every raw pattern.
    fn from_bits(bits: u16) -> (r: Self)
        ensures
            r == Self::spec_of_bits(bits),
            r.spec_bits() == bits,
    ;

    /// Encodes the structured value back to the raw register value.
    fn into_bits(self) -> (r: u16)
        ensures
            r == self.spec_bits(),
    ;

    /// The register's bus address.
    fn addr() -> (r: u8)
        ensures
            r == Self::spec_addr(),
    ;

    /// Round trip, raw side: encode after decode is the identity on every
    /// raw 16-bit value, reserved bits included.
    proof fn lemma_encode_decode(bits: u16)
        ensures
            Self::spec_of_bits(bits).spec_bits() == bits,
    ;

    /// Round trip, structured side: decode after encode is the identity on
    /// every structured value.
    proof fn lemma_decode_encode(self)
        ensures
            Self::spec_of_bits(self.spec_bits()) == self,
    ;
}

/// WATCHDOG timer adjustment, shared by the charge-option and the virtual
/// control registers.
#[derive(Clone, Copy, Debug, PartialEq, Eq)]
pub enum WdTmrAdj {
    Disable,
    Seconds5,
    Seconds88,
    Seconds175,
}

impl WdTmrAdj {
    /// The chip-defined code of each variant.
    pub open spec fn spec_into_bits(self) -> u8 {
        match self {
            WdTmrAdj::Disable => 0,
            WdTmrAdj::Seconds5 => 1,
            WdTmrAdj::Seconds88 => 2,
            WdTmrAdj::Seconds175 => 3,
        }
    }

    /// The variant each code decodes to; total over all codes.
    pub open spec fn spec_from_bits(value: u8) -> Self {
        if value == 0 {
            WdTmrAdj::Disable
        } else if value == 1 {
            WdTmrAdj::Seconds5
        } else if value == 2 {
            WdTmrAdj::Seconds88
        } else {
            WdTmrAdj::Seconds175
        }
    }

    pub fn into_bits(self) -> (r: u8)
        ensures
            r == self.spec_into_bits(),
    {
        match self {
            WdTmrAdj::Disable => 0,
            WdTmrAdj::Seconds5 => 1,
            WdTmrAdj::Seconds88 => 2,
            WdTmrAdj::Seconds175 => 3,
        }
    }

    pub fn from_bits(value: u8) -> (r: Self)
        ensures
            r == Self::spec_from_bits(value),
    {
        match value {
            0 => WdTmrAdj::Disable,
            1 => WdTmrAdj::Seconds5,
            2 => WdTmrAdj::Seconds88,
            _ => WdTmrAdj::Seconds175,
        }
    }

    /// Decoding the code of a variant yields that variant back.
    pub proof fn lemma_code_roundtrip(self)
        ensures
            Self::spec_from_bits(self.spec_into_bits()) == self,
    {
    }
}

/// WATCHDOG timer reset control.
#[derive(Clone, Copy, Debug, PartialEq, Eq)]
pub enum WdRst {
    Normal,
    Reset,
}

impl WdRst {
    /// The chip-defined code of each variant.
    pub open spec fn spec_into_bits(self) -> u8 {
        match self {
            WdRst::Normal => 0,
            WdRst::Reset => 1,
        }
    }

    /// The variant each code decodes to; total over all codes.
    pub open spec fn spec_from_bits(value: u8) -> Self {
        if value == 0 {
            WdRst::Normal
        } else {
            WdRst::Reset
        }
    }

    pub fn into_bits(self) -> (r: u8)
        ensures
            r == self.spec_into_bits(),
    {
        match self {
            WdRst::Normal => 0,
            WdRst::Reset => 1,
        }
    }

    pub fn from_bits(value: u8) -> (r: Self)
        ensures
            r == Self::spec_from_bits(value),
    {
        match value {
            0 => WdRst::Normal,
            _ => WdRst::Reset,
        }
    }

    /// Decoding the code of a variant yields that variant back.
    pub proof fn lemma_code_roundtrip(self)
        ensures
            Self::spec_from_bits(self.spec_into_bits()) == self,
    {
    }
}

/// Autonomous charging control.
#[derive(Clone, Copy, Debug, PartialEq, Eq)]
pub enum AutoChg {
    Disable,
    Enable,
}

impl AutoChg {
    /// The chip-defined code of each variant.
    pub open spec fn spec_into_bits(self) -> u8 {
        match self {
            AutoChg::Disable => 0,
            AutoChg::Enable => 1,
        }
    }

    /// The variant each code decodes to; total over all codes.
    pub open spec fn spec_from_bits(value: u8) -> Self {
        if value == 0 {
            AutoChg::Disable
        } else {
            AutoChg::Enable
        }
    }

    pub fn into_bits(self) -> (r: u8)
        ensures
            r == self.spec_into_bits(),
    {
        match self {
            AutoChg::Disable => 0,
            AutoChg::Enable => 1,
        }
    }

    pub fn from_bits(value: u8) -> (r: Self)
        ensures
            r == Self::spec_from_bits(value),
    {
        match value {
            0 => AutoChg::Disable,
            _ => AutoChg::Enable,
        }
    }

    /// Decoding the code of a variant yields that variant back.
    pub proof fn lemma_code_roundtrip(self)
        ensures
            Self::spec_from_bits(self.spec_into_bits()) == self,
    {
    }
}

/// Register reset control.
#[derive(Clone, Copy, Debug, PartialEq, Eq)]
pub enum RegReset {
    Idle,
    Reset,
}

impl RegReset {
    /// The chip-defined code of each variant.
    pub open spec fn spec_into_bits(self) -> u8 {
        match self {
            RegReset::Idle => 0,
            RegReset::Reset => 1,
        }
    }

    /// The variant each code decodes to; total over all codes.
    pub open spec fn spec_from_bits(value: u8) -> Self {
        if value == 0 {
            RegReset::Idle
        } else {
            RegReset::Reset
        }
    }

    pub fn into_bits(self) -> (r: u8)
        ensures
            r == self.spec_into_bits(),
    {
        match self {
            RegReset::Idle => 0,
            RegReset::Reset => 1,
        }
    }

    pub fn from_bits(value: u8) -> (r: Self)
        ensures
            r == Self::spec_from_bits(value),
    {
        match value {
            0 => RegReset::Idle,
            _ => RegReset::Reset,
        }
    }

    /// Decoding the code of a variant yields that variant back.
    pub proof fn lemma_code_roundtrip(self)
        ensures
            Self::spec_from_bits(self.spec_into_bits()) == self,
    {
    }
}

} // verus!
