use wm8731_alt::active_control::active_control;
use wm8731_alt::active::Active;
use wm8731_alt::analogue_audio_path::{analogue_audio_path, AnalogueAudioPath, DacselV, InselV, SideAttdB};
use wm8731_alt::digital_audio_interface::{digital_audio_interface, FormatV, IwlV, MsV};
use wm8731_alt::digital_audio_path::{digital_audio_path, DeempV, HporV};
use wm8731_alt::headphone_out::{left_headphone_out, right_headphone_out, HpVoldB};
use wm8731_alt::line_in::{left_line_in, right_line_in};
use wm8731_alt::power_down::power_down;
use wm8731_alt::register::Register;
use wm8731_alt::reset::reset;
use wm8731_alt::sampling::{sampling_command_builder_mclk, Mclk12M288};
use wm8731_alt::Command;

#[test]
fn every_builder_starts_from_reset_frame() {
    assert_eq!(left_line_in().into_command().into_raw(), (0x0 << 9) | 0b0_1001_0111);
    assert_eq!(right_line_in().into_command().into_raw(), (0x1 << 9) | 0b0_1001_0111);
    assert_eq!(left_headphone_out().into_command().into_raw(), (0x2 << 9) | 0b0_0111_1001);
    assert_eq!(right_headphone_out().into_command().into_raw(), (0x3 << 9) | 0b0_0111_1001);
    assert_eq!(analogue_audio_path().into_command().into_raw(), (0x4 << 9) | 0b00_1010);
    assert_eq!(digital_audio_path().into_command().into_raw(), (0x5 << 9) | 0b1000);
    assert_eq!(power_down().into_command().into_raw(), (0x6 << 9) | 0b1001_1111);
    assert_eq!(digital_audio_interface().into_command().into_raw(), (0x7 << 9) | 0b0000_1010);
    assert_eq!(active_control().into_command().into_raw(), (0x9 << 9) | 0b0);
    assert_eq!(reset().into_command().into_raw(), (0x6 << 9) | 0b1001_1111);
    assert_eq!(Command::<Active>::new().into_raw(), (0x9 << 9) | 0b0);
    // The sampling register starts from an all-zero payload; a rate that
    // writes zeros shows it.
    let sampling = sampling_command_builder_mclk(Mclk12M288).sample_rate().adc48k_dac48k();
    assert_eq!(sampling.into_command().into_raw(), (0x8 << 9) | 0b0000_0000);
}

#[test]
fn register_map_in_numbers() {
    let all = [
        (Register::LeftLineIn, 0x0, 0b0_1001_0111, 0x0097),
        (Register::RightLineIn, 0x1, 0b0_1001_0111, 0x0297),
        (Register::LeftHeadphoneOut, 0x2, 0b0_0111_1001, 0x0479),
        (Register::RightHeadphoneOut, 0x3, 0b0_0111_1001, 0x0679),
        (Register::AnalogueAudioPath, 0x4, 0b0_0000_1010, 0x080a),
        (Register::DigitalAudioPath, 0x5, 0b0_0000_1000, 0x0a08),
        (Register::PowerDown, 0x6, 0b0_1001_1111, 0x0c9f),
        (Register::DigitalAudioInterface, 0x7, 0b0_0000_1010, 0x0e0a),
        (Register::Sampling, 0x8, 0b0_0000_0000, 0x1000),
        (Register::ActiveControl, 0x9, 0b0_0000_0000, 0x1200),
        (Register::Reset, 0x6, 0b0_1001_1111, 0x0c9f),
    ];
    for (register, address, payload, frame) in all {
        assert_eq!(register.address(), address);
        assert_eq!(register.reset_payload(), payload);
        assert_eq!(register.reset_frame(), frame);
        assert_eq!(register.reset_frame(), (address << 9) | payload);
    }
}

#[test]
fn headphone_channels_differ_in_address_only() {
    let left = left_headphone_out().into_command().into_raw();
    let right = right_headphone_out().into_command().into_raw();
    assert_eq!(right ^ left, 1 << 9);
}

#[test]
fn headphone_volume_raw_bits() {
    assert_eq!(left_headphone_out().hpvol().bits(0).into_command().into_raw(), 0x0400);
    assert_eq!(left_headphone_out().hpvol().bits(0b111_1111).into_command().into_raw(), 0x047f);
    // The eighth bit of the value does not reach the zero-cross bit.
    assert_eq!(left_headphone_out().hpvol().bits(0b1000_0000).into_command().into_raw(), 0x0400);
    assert_eq!(right_headphone_out().hpvol().bits(0xff).into_command().into_raw(), 0x067f);
}

#[test]
fn headphone_volume_in_decibels() {
    assert_eq!(HpVoldB::from_db(0).unwrap().into_raw(), 0b111_1001);
    assert_eq!(HpVoldB::from_db(6).unwrap().into_raw(), 0b111_1111);
    assert_eq!(HpVoldB::from_db(-73).unwrap().into_raw(), 0b011_0000);
    assert_eq!(HpVoldB::from_db(-1).unwrap().into_raw(), 0b111_1000);
    assert_eq!(HpVoldB::mute().into_raw(), 0b010_1111);
    assert!(HpVoldB::from_db(7).is_none());
    assert!(HpVoldB::from_db(-74).is_none());
    assert!(HpVoldB::from_db(127).is_none());
    assert!(HpVoldB::from_db(-128).is_none());
    let loud = HpVoldB::from_db(6).unwrap();
    assert_eq!(left_headphone_out().hpvol().db(loud).into_command().into_raw(), 0x047f);
    let muted = left_headphone_out().zcen().set_bit().hpvol().db(HpVoldB::mute());
    assert_eq!(muted.into_command().into_raw(), 0x0400 | 0b1010_1111);
    let unity = HpVoldB::from_db(0).unwrap();
    assert_eq!(right_headphone_out().hpvol().bits(0).hpvol().db(unity), right_headphone_out());
}

#[test]
fn headphone_toggles() {
    assert_eq!(left_headphone_out().zcen().set_bit().into_command().into_raw(), 0x0400 | 0b0_1111_1001);
    assert_eq!(left_headphone_out().zcen().enable().into_command().into_raw(), 0x0400 | 0b0_1111_1001);
    assert_eq!(left_headphone_out().zcen().bit(true).into_command().into_raw(), 0x0400 | 0b0_1111_1001);
    assert_eq!(left_headphone_out().zcen().clear_bit(), left_headphone_out());
    assert_eq!(left_headphone_out().zcen().disable(), left_headphone_out());
    assert_eq!(left_headphone_out().zcen().bit(false), left_headphone_out());
    assert_eq!(right_headphone_out().hpboth().set_bit().into_command().into_raw(), 0x0600 | 0b1_0111_1001);
    assert_eq!(right_headphone_out().hpboth().enable().into_command().into_raw(), 0x0600 | 0b1_0111_1001);
    assert_eq!(right_headphone_out().hpboth().bit(true).into_command().into_raw(), 0x0600 | 0b1_0111_1001);
    assert_eq!(right_headphone_out().hpboth().clear_bit(), right_headphone_out());
    assert_eq!(right_headphone_out().hpboth().disable(), right_headphone_out());
    assert_eq!(right_headphone_out().hpboth().bit(false), right_headphone_out());
}

fn aap(cmd: AnalogueAudioPath) -> u16 {
    cmd.into_command().into_raw() ^ 0x0800
}

#[test]
fn analogue_audio_path_toggles() {
    assert_eq!(AnalogueAudioPath::new(), analogue_audio_path());
    let start = analogue_audio_path();
    assert_eq!(aap(start), 0b0000_1010);
    assert_eq!(aap(start.micboost().set_bit()), 0b0000_1011);
    assert_eq!(aap(start.micboost().enable()), 0b0000_1011);
    assert_eq!(aap(start.micboost().bit(true)), 0b0000_1011);
    assert_eq!(aap(start.micboost().clear_bit()), 0b0000_1010);
    assert_eq!(aap(start.micboost().disable()), 0b0000_1010);
    assert_eq!(aap(start.mutemic().clear_bit()), 0b0000_1000);
    assert_eq!(aap(start.mutemic().disable()), 0b0000_1000);
    assert_eq!(aap(start.mutemic().bit(false)), 0b0000_1000);
    assert_eq!(aap(start.mutemic().set_bit()), 0b0000_1010);
    assert_eq!(aap(start.mutemic().enable()), 0b0000_1010);
    assert_eq!(aap(start.bypass().clear_bit()), 0b0000_0010);
    assert_eq!(aap(start.bypass().disable()), 0b0000_0010);
    assert_eq!(aap(start.bypass().bit(false)), 0b0000_0010);
    assert_eq!(aap(start.bypass().set_bit()), 0b0000_1010);
    assert_eq!(aap(start.bypass().enable()), 0b0000_1010);
    assert_eq!(aap(start.sidetone().set_bit()), 0b0010_1010);
    assert_eq!(aap(start.sidetone().enable()), 0b0010_1010);
    assert_eq!(aap(start.sidetone().bit(true)), 0b0010_1010);
    assert_eq!(aap(start.sidetone().clear_bit()), 0b0000_1010);
    assert_eq!(aap(start.sidetone().disable()), 0b0000_1010);
}

#[test]
fn analogue_audio_path_input_select_is_bit_2() {
    let start = analogue_audio_path();
    assert_eq!(aap(start.insel().microphone()), 0b0000_1110);
    assert_eq!(aap(start.insel().set_bit()), 0b0000_1110);
    assert_eq!(aap(start.insel().bit(true)), 0b0000_1110);
    assert_eq!(aap(start.insel().variant(InselV::Microphone)), 0b0000_1110);
    let mic = start.insel().microphone();
    assert_eq!(aap(mic.insel().line()), 0b0000_1010);
    assert_eq!(aap(mic.insel().clear_bit()), 0b0000_1010);
    assert_eq!(aap(mic.insel().bit(false)), 0b0000_1010);
    assert_eq!(aap(mic.insel().variant(InselV::Line)), 0b0000_1010);
}

#[test]
fn analogue_audio_path_dac_select_is_bit_4() {
    let start = analogue_audio_path();
    assert_eq!(aap(start.dacsel().select()), 0b0001_1010);
    assert_eq!(aap(start.dacsel().set_bit()), 0b0001_1010);
    assert_eq!(aap(start.dacsel().bit(true)), 0b0001_1010);
    assert_eq!(aap(start.dacsel().variant(DacselV::Select)), 0b0001_1010);
    let dac = start.dacsel().select().insel().microphone();
    assert_eq!(aap(dac), 0b0001_1110);
    assert_eq!(aap(dac.dacsel().deselect()), 0b0000_1110);
    assert_eq!(aap(dac.dacsel().clear_bit()), 0b0000_1110);
    assert_eq!(aap(dac.dacsel().bit(false)), 0b0000_1110);
    assert_eq!(aap(dac.dacsel().variant(DacselV::Deselect)), 0b0000_1110);
}

#[test]
fn analogue_audio_path_side_tone_attenuation() {
    let start = analogue_audio_path();
    assert_eq!(aap(start.sideatt().bits(0b11)), 0b1100_1010);
    assert_eq!(aap(start.sideatt().bits(0b10)), 0b1000_1010);
    assert_eq!(aap(start.sideatt().bits(0b01)), 0b0100_1010);
    // Only two bits of the value count: bit 8 stays clear.
    assert_eq!(aap(start.sideatt().bits(0b111)), 0b1100_1010);
    assert_eq!(aap(start.sideatt().bits(0b100)), 0b0000_1010);
    assert_eq!(SideAttdB::N6dB.into_raw(), 0b00);
    assert_eq!(SideAttdB::N9dB.into_raw(), 0b01);
    assert_eq!(SideAttdB::N12dB.into_raw(), 0b10);
    assert_eq!(SideAttdB::N15dB.into_raw(), 0b11);
    assert_eq!(aap(start.sideatt().db(SideAttdB::N15dB)), 0b1100_1010);
    assert_eq!(aap(start.sideatt().db(SideAttdB::N12dB)), 0b1000_1010);
    assert_eq!(aap(start.sideatt().db(SideAttdB::N9dB)), 0b0100_1010);
    assert_eq!(aap(start.sideatt().db(SideAttdB::N15dB).sideatt().db(SideAttdB::N6dB)), 0b0000_1010);
}

#[test]
fn digital_audio_path_fields() {
    let start = digital_audio_path();
    let payload = |cmd: wm8731_alt::digital_audio_path::DigitalAudioPath| cmd.into_command().into_raw() ^ 0x0a00;
    assert_eq!(payload(start), 0b0_1000);
    assert_eq!(payload(start.adchpd().set_bit()), 0b0_1001);
    assert_eq!(payload(start.adchpd().enable()), 0b0_1001);
    assert_eq!(payload(start.adchpd().bit(true)), 0b0_1001);
    assert_eq!(payload(start.adchpd().clear_bit()), 0b0_1000);
    assert_eq!(payload(start.adchpd().disable()), 0b0_1000);
    assert_eq!(payload(start.dacmu().clear_bit()), 0b0_0000);
    assert_eq!(payload(start.dacmu().disable()), 0b0_0000);
    assert_eq!(payload(start.dacmu().bit(false)), 0b0_0000);
    assert_eq!(payload(start.dacmu().set_bit()), 0b0_1000);
    assert_eq!(payload(start.dacmu().enable()), 0b0_1000);
    assert_eq!(payload(start.deemp().bits(0b11)), 0b0_1110);
    assert_eq!(payload(start.deemp().bits(0b111)), 0b0_1110);
    assert_eq!(payload(start.deemp().bits(0b100)), 0b0_1000);
    assert_eq!(payload(start.deemp().f32k()), 0b0_1010);
    assert_eq!(payload(start.deemp().f44k1()), 0b0_1100);
    assert_eq!(payload(start.deemp().f48k()), 0b0_1110);
    assert_eq!(payload(start.deemp().f48k().deemp().disable()), 0b0_1000);
    assert_eq!(payload(start.deemp().variant(DeempV::F32k)), 0b0_1010);
    assert_eq!(payload(start.deemp().variant(DeempV::F44k1)), 0b0_1100);
    assert_eq!(payload(start.deemp().variant(DeempV::F48k)), 0b0_1110);
    assert_eq!(payload(start.deemp().f48k().deemp().variant(DeempV::Disable)), 0b0_1000);
    assert_eq!(payload(start.hpor().set_bit()), 0b1_1000);
    assert_eq!(payload(start.hpor().bit(true)), 0b1_1000);
    assert_eq!(payload(start.hpor().store_offset()), 0b1_1000);
    assert_eq!(payload(start.hpor().variant(HporV::StoreOffset)), 0b1_1000);
    let stored = start.hpor().store_offset();
    assert_eq!(payload(stored.hpor().clear_bit()), 0b0_1000);
    assert_eq!(payload(stored.hpor().bit(false)), 0b0_1000);
    assert_eq!(payload(stored.hpor().clear_offset()), 0b0_1000);
    assert_eq!(payload(stored.hpor().variant(HporV::ClearOffset)), 0b0_1000);
}

#[test]
fn power_down_bits() {
    let payload = |cmd: wm8731_alt::power_down::PowerDown| cmd.into_command().into_raw() ^ 0x0c00;
    let start = power_down();
    assert_eq!(payload(start), 0b1001_1111);
    assert_eq!(payload(start.lineinpd().clear_bit()), 0b1001_1110);
    assert_eq!(payload(start.lineinpd().disable()), 0b1001_1110);
    assert_eq!(payload(start.lineinpd().bit(false)), 0b1001_1110);
    assert_eq!(payload(start.micpd().clear_bit()), 0b1001_1101);
    assert_eq!(payload(start.micpd().disable()), 0b1001_1101);
    assert_eq!(payload(start.adcpd().clear_bit()), 0b1001_1011);
    assert_eq!(payload(start.adcpd().bit(false)), 0b1001_1011);
    assert_eq!(payload(start.dacpd().clear_bit()), 0b1001_0111);
    assert_eq!(payload(start.dacpd().disable()), 0b1001_0111);
    assert_eq!(payload(start.outpd().clear_bit()), 0b1000_1111);
    assert_eq!(payload(start.outpd().bit(false)), 0b1000_1111);
    assert_eq!(payload(start.oscpd().set_bit()), 0b1011_1111);
    assert_eq!(payload(start.oscpd().enable()), 0b1011_1111);
    assert_eq!(payload(start.oscpd().bit(true)), 0b1011_1111);
    assert_eq!(payload(start.clkoutpd().set_bit()), 0b1101_1111);
    assert_eq!(payload(start.clkoutpd().enable()), 0b1101_1111);
    assert_eq!(payload(start.poweroff().clear_bit()), 0b0001_1111);
    assert_eq!(payload(start.poweroff().disable()), 0b0001_1111);
    assert_eq!(payload(start.poweroff().bit(false)), 0b0001_1111);
    let all_up = start
        .lineinpd().clear_bit()
        .micpd().clear_bit()
        .adcpd().clear_bit()
        .dacpd().clear_bit()
        .outpd().clear_bit()
        .poweroff().clear_bit();
    assert_eq!(payload(all_up), 0);
    let all_down = all_up
        .lineinpd().set_bit()
        .micpd().enable()
        .adcpd().bit(true)
        .dacpd().set_bit()
        .outpd().enable()
        .oscpd().set_bit()
        .clkoutpd().set_bit()
        .poweroff().set_bit();
    assert_eq!(payload(all_down), 0b1111_1111);
}

#[test]
fn digital_audio_interface_fields() {
    let payload = |cmd: wm8731_alt::digital_audio_interface::DigitalAudioInterface| cmd.into_command().into_raw() ^ 0x0e00;
    let start = digital_audio_interface();
    assert_eq!(payload(start), 0b0000_1010);
    assert_eq!(payload(start.format().dsp()), 0b0000_1011);
    assert_eq!(payload(start.format().i2s()), 0b0000_1010);
    assert_eq!(payload(start.format().left_justified()), 0b0000_1001);
    assert_eq!(payload(start.format().right_justified()), 0b0000_1000);
    assert_eq!(payload(start.format().variant(FormatV::Dsp)), 0b0000_1011);
    assert_eq!(payload(start.format().variant(FormatV::I2s)), 0b0000_1010);
    assert_eq!(payload(start.format().variant(FormatV::LeftJustified)), 0b0000_1001);
    assert_eq!(payload(start.format().variant(FormatV::RigthJustified)), 0b0000_1000);
    assert_eq!(payload(start.format().bits(0b1111_1101)), 0b0000_1001);
    assert_eq!(payload(start.iwl().iwl_32_bits()), 0b0000_1110);
    assert_eq!(payload(start.iwl().iwl_24_bits()), 0b0000_1010);
    assert_eq!(payload(start.iwl().iwl_20_bits()), 0b0000_0110);
    assert_eq!(payload(start.iwl().iwl_16_bits()), 0b0000_0010);
    assert_eq!(payload(start.iwl().variant(IwlV::Iwl32bits)), 0b0000_1110);
    assert_eq!(payload(start.iwl().variant(IwlV::Iwl24bits)), 0b0000_1010);
    assert_eq!(payload(start.iwl().variant(IwlV::Iwl20bits)), 0b0000_0110);
    assert_eq!(payload(start.iwl().variant(IwlV::Iwl16bits)), 0b0000_0010);
    assert_eq!(payload(start.iwl().bits(0b1111_1101)), 0b0000_0110);
    assert_eq!(payload(start.lrp().set_bit()), 0b0001_1010);
    assert_eq!(payload(start.lrp().bit(true)), 0b0001_1010);
    assert_eq!(payload(start.lrp().set_bit().lrp().clear_bit()), 0b0000_1010);
    assert_eq!(payload(start.lrp().set_bit().lrp().bit(false)), 0b0000_1010);
    assert_eq!(payload(start.lrswap().set_bit()), 0b0010_1010);
    assert_eq!(payload(start.lrswap().enable()), 0b0010_1010);
    assert_eq!(payload(start.lrswap().bit(true)), 0b0010_1010);
    assert_eq!(payload(start.lrswap().enable().lrswap().clear_bit()), 0b0000_1010);
    assert_eq!(payload(start.lrswap().enable().lrswap().disable()), 0b0000_1010);
    assert_eq!(payload(start.ms().master()), 0b0100_1010);
    assert_eq!(payload(start.ms().set_bit()), 0b0100_1010);
    assert_eq!(payload(start.ms().bit(true)), 0b0100_1010);
    assert_eq!(payload(start.ms().variant(MsV::Master)), 0b0100_1010);
    assert_eq!(payload(start.ms().master().ms().slave()), 0b0000_1010);
    assert_eq!(payload(start.ms().master().ms().clear_bit()), 0b0000_1010);
    assert_eq!(payload(start.ms().master().ms().bit(false)), 0b0000_1010);
    assert_eq!(payload(start.ms().master().ms().variant(MsV::Slave)), 0b0000_1010);
    assert_eq!(payload(start.bclkinv().set_bit()), 0b1000_1010);
    assert_eq!(payload(start.bclkinv().enable()), 0b1000_1010);
    assert_eq!(payload(start.bclkinv().bit(true)), 0b1000_1010);
    assert_eq!(payload(start.bclkinv().enable().bclkinv().clear_bit()), 0b0000_1010);
    assert_eq!(payload(start.bclkinv().enable().bclkinv().disable()), 0b0000_1010);
}

#[test]
fn active_control_bit() {
    assert_eq!(active_control().active().into_command().into_raw(), 0x1201);
    assert_eq!(active_control().active().active().into_command().into_raw(), 0x1201);
    assert_eq!(active_control().active().inactive().into_command().into_raw(), 0x1200);
    assert_eq!(active_control().inactive().into_command().into_raw(), 0x1200);
    assert_eq!(Command::<Active>::new().active().into_raw(), 0x1201);
    assert_eq!(Command::<Active>::new().active().inactive().into_raw(), 0x1200);
    assert_eq!(Command::<Active>::new().inactive().into_raw(), 0x1200);
}

#[test]
fn builders_are_plain_values() {
    let start = power_down();
    let changed = start.oscpd().set_bit();
    // The write made a new value; the old one is as it was.
    assert_eq!(start, power_down());
    assert_ne!(changed, start);
    assert_eq!(start.clone(), start);
    let command = changed.into_command();
    assert_eq!(command.clone(), command);
}

#[test]
fn address_survives_every_write() {
    let cmd = left_headphone_out().hpvol().bits(0xff).zcen().set_bit().hpboth().set_bit();
    assert_eq!(cmd.into_command().into_raw() >> 9, 0x2);
    let cmd = analogue_audio_path().sideatt().bits(0xff).sidetone().set_bit();
    assert_eq!(cmd.into_command().into_raw() >> 9, 0x4);
    let cmd = right_line_in().inboth().set_bit().invol().bits(0xff);
    assert_eq!(cmd.into_command().into_raw() >> 9, 0x1);
}
