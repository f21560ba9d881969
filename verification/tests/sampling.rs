use wm8731_alt::sampling::{
    sampling_command_builder, sampling_command_builder_mclk, Mclk11M2896, Mclk12M, Mclk12M288,
    Mclk16M9344, Mclk18M432, Sampling,
};

const SAMPLING: u16 = 0x8 << 9;

#[test]
fn named_rate_48k_under_12m288_is_code_000000() {
    let cmd = sampling_command_builder_mclk(Mclk12M288).sample_rate().adc48k_dac48k();
    assert_eq!(cmd.into_command().into_raw() & 0b11_1111, 0b000000);
}

#[test]
fn named_rate_48k_under_12m_is_code_000001() {
    let cmd = sampling_command_builder_mclk(Mclk12M).sample_rate().adc48k_dac48k();
    assert_eq!(cmd.into_command().into_raw() & 0b11_1111, 0b000001);
}

#[test]
fn named_rate_44k1_under_11m2896_is_code_100000() {
    let cmd = sampling_command_builder_mclk(Mclk11M2896).sample_rate().adc44k1_dac44k1();
    assert_eq!(cmd.into_command().into_raw() & 0b11_1111, 0b100000);
}

#[test]
fn named_rates_under_12m288() {
    let start = sampling_command_builder_mclk(Mclk12M288);
    assert_eq!(start.sample_rate().adc48k_dac48k().into_command().into_raw(), SAMPLING | 0b000000);
    assert_eq!(start.sample_rate().adc48k_dac8k().into_command().into_raw(), SAMPLING | 0b000100);
    assert_eq!(start.sample_rate().adc8k_dac48k().into_command().into_raw(), SAMPLING | 0b001000);
    assert_eq!(start.sample_rate().adc8k_dac8k().into_command().into_raw(), SAMPLING | 0b001100);
    assert_eq!(start.sample_rate().adc32k_dac32k().into_command().into_raw(), SAMPLING | 0b011000);
    assert_eq!(start.sample_rate().adc96k_dac96k().into_command().into_raw(), SAMPLING | 0b011100);
}

#[test]
fn named_rates_under_18m432() {
    let start = sampling_command_builder_mclk(Mclk18M432);
    assert_eq!(start.sample_rate().adc48k_dac48k().into_command().into_raw(), SAMPLING | 0b000010);
    assert_eq!(start.sample_rate().adc48k_dac8k().into_command().into_raw(), SAMPLING | 0b000110);
    assert_eq!(start.sample_rate().adc8k_dac48k().into_command().into_raw(), SAMPLING | 0b001010);
    assert_eq!(start.sample_rate().adc8k_dac8k().into_command().into_raw(), SAMPLING | 0b001110);
    assert_eq!(start.sample_rate().adc32k_dac32k().into_command().into_raw(), SAMPLING | 0b011010);
    assert_eq!(start.sample_rate().adc96k_dac96k().into_command().into_raw(), SAMPLING | 0b011110);
}

#[test]
fn named_rates_under_11m2896() {
    let start = sampling_command_builder_mclk(Mclk11M2896);
    assert_eq!(start.sample_rate().adc44k1_dac44k1().into_command().into_raw(), SAMPLING | 0b100000);
    assert_eq!(start.sample_rate().adc44k1_dac8k().into_command().into_raw(), SAMPLING | 0b100100);
    assert_eq!(start.sample_rate().adc8k_dac44k1().into_command().into_raw(), SAMPLING | 0b101000);
    assert_eq!(start.sample_rate().adc8k_dac8k().into_command().into_raw(), SAMPLING | 0b101100);
    assert_eq!(start.sample_rate().adc88k2_dac88k2().into_command().into_raw(), SAMPLING | 0b111100);
}

#[test]
fn named_rates_under_16m9344() {
    let start = sampling_command_builder_mclk(Mclk16M9344);
    assert_eq!(start.sample_rate().adc44k1_dac44k1().into_command().into_raw(), SAMPLING | 0b100010);
    assert_eq!(start.sample_rate().adc44k1_dac8k().into_command().into_raw(), SAMPLING | 0b100110);
    assert_eq!(start.sample_rate().adc8k_dac44k1().into_command().into_raw(), SAMPLING | 0b101010);
    assert_eq!(start.sample_rate().adc8k_dac8k().into_command().into_raw(), SAMPLING | 0b101110);
    assert_eq!(start.sample_rate().adc88k2_dac88k2().into_command().into_raw(), SAMPLING | 0b111110);
}

#[test]
fn named_rates_under_12m() {
    let start = sampling_command_builder_mclk(Mclk12M);
    assert_eq!(start.sample_rate().adc48k_dac48k().into_command().into_raw(), SAMPLING | 0b000001);
    assert_eq!(start.sample_rate().adc44k1_dac44k1().into_command().into_raw(), SAMPLING | 0b100011);
    assert_eq!(start.sample_rate().adc48k_dac8k().into_command().into_raw(), SAMPLING | 0b000101);
    assert_eq!(start.sample_rate().adc44k1_dac8k().into_command().into_raw(), SAMPLING | 0b100111);
    assert_eq!(start.sample_rate().adc8k_dac48k().into_command().into_raw(), SAMPLING | 0b001001);
    assert_eq!(start.sample_rate().adc8k_dac44k1().into_command().into_raw(), SAMPLING | 0b101011);
    assert_eq!(start.sample_rate().adc8k_dac8k().into_command().into_raw(), SAMPLING | 0b001101);
    assert_eq!(start.sample_rate().adc8k_dac8k_bis().into_command().into_raw(), SAMPLING | 0b101111);
    assert_eq!(start.sample_rate().adc32k_dac32k().into_command().into_raw(), SAMPLING | 0b011001);
    assert_eq!(start.sample_rate().adc96k_dac96k().into_command().into_raw(), SAMPLING | 0b011101);
    assert_eq!(start.sample_rate().adc88k2_dac88k2().into_command().into_raw(), SAMPLING | 0b111111);
}

#[test]
fn named_rate_replaces_an_earlier_one() {
    let first = sampling_command_builder_mclk(Mclk12M).sample_rate().adc88k2_dac88k2();
    let second = first.sample_rate().adc48k_dac48k();
    assert_eq!(second.into_command().into_raw(), SAMPLING | 0b000001);
    let twice = second.sample_rate().adc48k_dac48k();
    assert_eq!(twice.into_command().into_raw(), second.into_command().into_raw());
}

#[test]
fn named_rate_keeps_clock_dividers() {
    let cmd = sampling_command_builder_mclk(Mclk18M432)
        .clkidiv2().set_bit()
        .clkodiv2().set_bit()
        .sample_rate().adc96k_dac96k();
    assert_eq!(cmd.into_command().into_raw(), SAMPLING | 0b1101_1110);
    let cmd = cmd.clkidiv2().clear_bit();
    assert_eq!(cmd.into_command().into_raw(), SAMPLING | 0b1001_1110);
}

#[test]
fn clock_dividers_in_every_form() {
    let start = sampling_command_builder_mclk(Mclk12M288).sample_rate().adc48k_dac48k();
    let raw = |cmd: Sampling<(Mclk12M288, wm8731_alt::sampling::SrIsSet)>| cmd.into_command().into_raw();
    assert_eq!(raw(start.clkidiv2().set_bit()), SAMPLING | 0b0100_0000);
    assert_eq!(raw(start.clkidiv2().enable()), SAMPLING | 0b0100_0000);
    assert_eq!(raw(start.clkidiv2().bit(true)), SAMPLING | 0b0100_0000);
    assert_eq!(raw(start.clkidiv2().set_bit().clkidiv2().clear_bit()), SAMPLING);
    assert_eq!(raw(start.clkidiv2().set_bit().clkidiv2().disable()), SAMPLING);
    assert_eq!(raw(start.clkidiv2().set_bit().clkidiv2().bit(false)), SAMPLING);
    assert_eq!(raw(start.clkodiv2().set_bit()), SAMPLING | 0b1000_0000);
    assert_eq!(raw(start.clkodiv2().enable()), SAMPLING | 0b1000_0000);
    assert_eq!(raw(start.clkodiv2().bit(true)), SAMPLING | 0b1000_0000);
    assert_eq!(raw(start.clkodiv2().set_bit().clkodiv2().clear_bit()), SAMPLING);
    assert_eq!(raw(start.clkodiv2().set_bit().clkodiv2().disable()), SAMPLING);
    assert_eq!(raw(start.clkodiv2().set_bit().clkodiv2().bit(false)), SAMPLING);
}

#[test]
fn raw_chain_in_normal_mode() {
    let new_cmd = sampling_command_builder();
    // In normal mode the oversampling bit may be written, but need not be.
    let cmd = new_cmd.usb_normal().normal().bosr().set_bit().sr().sr_0b1111().into_command();
    assert_eq!(cmd.into_raw(), SAMPLING | 0b11_1110);
    let cmd = new_cmd.usb_normal().normal().sr().sr_0b0110().into_command();
    assert_eq!(cmd.into_raw(), SAMPLING | 0b01_1000);
    let cmd = new_cmd.usb_normal().clear_bit().bosr().clear_bit().sr().sr_0b1000().into_command();
    assert_eq!(cmd.into_raw(), SAMPLING | 0b10_0000);
    // The oversampling bit may come before the mode.
    let cmd = new_cmd.bosr().set_bit().usb_normal().normal().sr().sr_0b0001().into_command();
    assert_eq!(cmd.into_raw(), SAMPLING | 0b00_0110);
}

#[test]
fn raw_chain_in_usb_mode() {
    let new_cmd = sampling_command_builder();
    let cmd = new_cmd.usb_normal().usb().bosr().set_bit().sr().sr_0b1111().into_command();
    assert_eq!(cmd.into_raw(), SAMPLING | 0b11_1111);
    let cmd = new_cmd.usb_normal().usb().bosr().clear_bit().sr().sr_0b0000().into_command();
    assert_eq!(cmd.into_raw(), SAMPLING | 0b00_0001);
    let cmd = new_cmd.usb_normal().set_bit().bosr().clear_bit().sr().sr_0b0111().into_command();
    assert_eq!(cmd.into_raw(), SAMPLING | 0b01_1101);
    let cmd = new_cmd.bosr().set_bit().usb_normal().usb().sr().sr_0b1000().into_command();
    assert_eq!(cmd.into_raw(), SAMPLING | 0b10_0011);
}

#[test]
fn raw_sample_rate_can_be_written_again() {
    let first = sampling_command_builder().usb_normal().normal().sr().sr_0b1111();
    assert_eq!(first.into_command().into_raw(), SAMPLING | 0b11_1100);
    let second = first.sr().sr_0b0010();
    assert_eq!(second.into_command().into_raw(), SAMPLING | 0b00_1000);
    let third = second.clkodiv2().set_bit().sr().sr_0b0010();
    assert_eq!(third.into_command().into_raw(), SAMPLING | 0b1000_1000);
}

#[test]
fn raw_bits_are_cut_to_the_field() {
    let start = sampling_command_builder().usb_normal().usb().bosr().set_bit();
    let cmd = start.sr().bits(0b1111_1111);
    assert_eq!(cmd.into_command().into_raw(), SAMPLING | 0b11_1111);
    let cmd = start.sr().bits(0b1111_0000);
    assert_eq!(cmd.into_command().into_raw(), SAMPLING | 0b00_0011);
    // A code that the data sheet does not list is written as it is.
    let cmd = start.sr().bits(0b0100);
    assert_eq!(cmd.into_command().into_raw(), SAMPLING | 0b01_0011);
}

#[test]
fn sampling_new_is_the_raw_builder() {
    let a = Sampling::<(wm8731_alt::sampling::Unset, wm8731_alt::sampling::Unset, wm8731_alt::sampling::Unset)>::new();
    let b = sampling_command_builder();
    let a = a.usb_normal().normal().sr().sr_0b0000().into_command();
    let b = b.usb_normal().normal().sr().sr_0b0000().into_command();
    assert_eq!(a, b);
    assert_eq!(a.into_raw(), 0x1000);
}

#[test]
fn raw_codes_in_normal() {
    let start = sampling_command_builder().usb_normal().normal();
    assert_eq!(start.sr().sr_0b0000().into_command().into_raw(), SAMPLING | (0b0000 << 2) | 0b00);
    assert_eq!(start.sr().sr_0b0001().into_command().into_raw(), SAMPLING | (0b0001 << 2) | 0b00);
    assert_eq!(start.sr().sr_0b0010().into_command().into_raw(), SAMPLING | (0b0010 << 2) | 0b00);
    assert_eq!(start.sr().sr_0b0011().into_command().into_raw(), SAMPLING | (0b0011 << 2) | 0b00);
    assert_eq!(start.sr().sr_0b0110().into_command().into_raw(), SAMPLING | (0b0110 << 2) | 0b00);
    assert_eq!(start.sr().sr_0b0111().into_command().into_raw(), SAMPLING | (0b0111 << 2) | 0b00);
    assert_eq!(start.sr().sr_0b1000().into_command().into_raw(), SAMPLING | (0b1000 << 2) | 0b00);
    assert_eq!(start.sr().sr_0b1001().into_command().into_raw(), SAMPLING | (0b1001 << 2) | 0b00);
    assert_eq!(start.sr().sr_0b1010().into_command().into_raw(), SAMPLING | (0b1010 << 2) | 0b00);
    assert_eq!(start.sr().sr_0b1011().into_command().into_raw(), SAMPLING | (0b1011 << 2) | 0b00);
    assert_eq!(start.sr().sr_0b1111().into_command().into_raw(), SAMPLING | (0b1111 << 2) | 0b00);
}

#[test]
fn raw_codes_in_usb_bosr_clear() {
    let start = sampling_command_builder().usb_normal().usb().bosr().clear_bit();
    assert_eq!(start.sr().sr_0b0000().into_command().into_raw(), SAMPLING | (0b0000 << 2) | 0b01);
    assert_eq!(start.sr().sr_0b0001().into_command().into_raw(), SAMPLING | (0b0001 << 2) | 0b01);
    assert_eq!(start.sr().sr_0b0010().into_command().into_raw(), SAMPLING | (0b0010 << 2) | 0b01);
    assert_eq!(start.sr().sr_0b0011().into_command().into_raw(), SAMPLING | (0b0011 << 2) | 0b01);
    assert_eq!(start.sr().sr_0b0110().into_command().into_raw(), SAMPLING | (0b0110 << 2) | 0b01);
    assert_eq!(start.sr().sr_0b0111().into_command().into_raw(), SAMPLING | (0b0111 << 2) | 0b01);
}

#[test]
fn raw_codes_in_usb_bosr_set() {
    let start = sampling_command_builder().usb_normal().usb().bosr().set_bit();
    assert_eq!(start.sr().sr_0b1000().into_command().into_raw(), SAMPLING | (0b1000 << 2) | 0b11);
    assert_eq!(start.sr().sr_0b1001().into_command().into_raw(), SAMPLING | (0b1001 << 2) | 0b11);
    assert_eq!(start.sr().sr_0b1010().into_command().into_raw(), SAMPLING | (0b1010 << 2) | 0b11);
    assert_eq!(start.sr().sr_0b1011().into_command().into_raw(), SAMPLING | (0b1011 << 2) | 0b11);
    assert_eq!(start.sr().sr_0b1111().into_command().into_raw(), SAMPLING | (0b1111 << 2) | 0b11);
}
