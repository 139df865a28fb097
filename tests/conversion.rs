use neuro_import::{
    center_block, convert_amplifier_data, convert_board_adc_data, convert_board_dac_data,
    convert_board_dig_in_raw, convert_board_dig_out_raw, convert_dc_amplifier_data,
    convert_samples, convert_stim_data, decode_stim_block, decode_stim_word, demux_digital,
    ChannelDescriptor, HeaderInfo, Notes, RawSampleBlock, StimSample, AMPLIFIER_ZERO,
    BOARD_ANALOG_ZERO, DC_AMPLIFIER_ZERO,
};

fn channel(native_order: i32) -> ChannelDescriptor {
    ChannelDescriptor {
        native_channel_name: format!("DIN-{:02}", native_order),
        custom_channel_name: format!("DIN-{:02}", native_order),
        native_order,
        custom_order: native_order,
        chip_channel: 0,
        board_stream: 0,
        port_name: "Digital Input Port".to_string(),
        port_prefix: "DIN".to_string(),
        port_number: 0,
    }
}

fn header(amplifiers: usize, dig_in: Vec<i32>, dig_out: Vec<i32>, dc_saved: bool) -> HeaderInfo {
    HeaderInfo {
        notes: Notes { note1: String::new(), note2: String::new(), note3: String::new() },
        reference_channel: String::new(),
        dc_amplifier_data_saved: dc_saved,
        amplifier_channels: (0..amplifiers as i32).map(channel).collect(),
        board_adc_channels: Vec::new(),
        board_dac_channels: Vec::new(),
        board_dig_in_channels: dig_in.into_iter().map(channel).collect(),
        board_dig_out_channels: dig_out.into_iter().map(channel).collect(),
        spike_triggers: Vec::new(),
    }
}

fn empty_block(timestamps: Vec<i32>) -> RawSampleBlock {
    RawSampleBlock {
        timestamps,
        amplifier_data: None,
        dc_amplifier_data: None,
        stim_data: None,
        board_adc_data: None,
        board_dac_data: None,
        board_dig_in_raw: None,
        board_dig_out_raw: None,
    }
}

#[test]
fn amplifier_codes_are_centred_on_32768() {
    let r = center_block(&vec![vec![0, 32768, 65535, 32963]], AMPLIFIER_ZERO);
    assert_eq!(r, vec![vec![-32768, 0, 32767, 195]]);
    assert_eq!(0.195f32 * r[0][1] as f32, 0.0);
}

#[test]
fn dc_amplifier_codes_are_centred_on_512() {
    let mut block = empty_block(vec![0, 1]);
    block.dc_amplifier_data = Some(vec![vec![512, 0]]);
    let r = convert_dc_amplifier_data(&block);
    assert_eq!(r, vec![vec![0, -512]]);
    let volts = -0.01923f32 * r[0][1] as f32;
    assert!((volts - 9.84576).abs() < 1e-4);
}

#[test]
fn adc_and_dac_codes_are_centred_on_32768() {
    let mut block = empty_block(vec![0, 1]);
    block.board_adc_data = Some(vec![vec![32768, 65535]]);
    block.board_dac_data = Some(vec![vec![65535, 32768], vec![0, 1]]);
    assert_eq!(convert_board_adc_data(&block), vec![vec![0, 32767]]);
    assert_eq!(convert_board_dac_data(&block), vec![vec![32767, 0], vec![-32768, -32767]]);
    assert_eq!(BOARD_ANALOG_ZERO, 32768);
    assert_eq!(DC_AMPLIFIER_ZERO, 512);
}

#[test]
fn absent_analog_streams_convert_to_nothing() {
    let block = empty_block(vec![0, 1, 2]);
    assert!(convert_amplifier_data(&block).is_empty());
    assert!(convert_dc_amplifier_data(&block).is_empty());
    assert!(convert_board_adc_data(&block).is_empty());
    assert!(convert_board_dac_data(&block).is_empty());
    let stim = convert_stim_data(&block);
    assert!(stim.stim_data.is_empty());
    assert!(stim.compliance_limit_data.is_empty());
}

#[test]
fn zero_channel_adc_block_is_empty() {
    let mut block = empty_block(vec![0, 1]);
    block.board_adc_data = Some(Vec::new());
    assert!(convert_board_adc_data(&block).is_empty());
}

#[test]
fn stim_word_compliance_only() {
    let d = decode_stim_word(0x8000);
    assert_eq!(
        d,
        StimSample { amplitude: 0, compliance_limit: true, charge_recovery: false, amp_settle: false }
    );
}

#[test]
fn stim_word_polarity_and_magnitude() {
    assert_eq!(decode_stim_word(0x0105).amplitude, -5);
    assert_eq!(decode_stim_word(0x0005).amplitude, 5);
    assert_eq!(decode_stim_word(0x0105).amplitude as f32, -5.0);
    let d = decode_stim_word(0x60FF);
    assert_eq!(d.amplitude, 255);
    assert!(!d.compliance_limit && d.charge_recovery && d.amp_settle);
    let e = decode_stim_word(0xFFFF);
    assert_eq!(e.amplitude, -255);
    assert!(e.compliance_limit && e.charge_recovery && e.amp_settle);
    // Bits 9 to 12 carry nothing.
    assert_eq!(decode_stim_word(0x1E07), decode_stim_word(0x0007));
}

#[test]
fn stim_block_decodes_every_word_in_place() {
    let r = decode_stim_block(&vec![vec![0x8000, 0x0105], vec![0x0005, 0x4000]]);
    assert_eq!(r.stim_data, vec![vec![0, -5], vec![5, 0]]);
    assert_eq!(r.compliance_limit_data, vec![vec![true, false], vec![false, false]]);
    assert_eq!(r.charge_recovery_data, vec![vec![false, false], vec![false, true]]);
    assert_eq!(r.amp_settle_data, vec![vec![false, false], vec![false, false]]);
}

#[test]
fn digital_word_eight_sets_only_line_three() {
    let channels: Vec<ChannelDescriptor> = (0..16).map(channel).collect();
    let r = demux_digital(&vec![0b1000, 0], &channels);
    assert_eq!(r.len(), 16);
    for (i, line) in r.iter().enumerate() {
        assert_eq!(line, &vec![i == 3, false]);
    }
}

#[test]
fn digital_lines_follow_native_order_not_position() {
    let channels = vec![channel(15), channel(0)];
    let r = demux_digital(&vec![0x8000, 0x0001, 0x8001], &channels);
    assert_eq!(r, vec![vec![true, false, true], vec![false, true, true]]);
}

#[test]
fn digital_ports_use_their_own_groups() {
    let h = header(0, vec![1], vec![2, 0], false);
    let mut block = empty_block(vec![0, 1]);
    block.board_dig_in_raw = Some(vec![2, 0]);
    block.board_dig_out_raw = Some(vec![4, 1]);
    assert_eq!(convert_board_dig_in_raw(&block, &h), vec![vec![true, false]]);
    assert_eq!(convert_board_dig_out_raw(&block, &h), vec![vec![true, false], vec![false, true]]);
}

#[test]
fn zero_samples_give_empty_lines_per_channel() {
    let h = header(0, vec![0, 1], vec![], false);
    let mut block = empty_block(Vec::new());
    block.board_dig_in_raw = Some(Vec::new());
    let r = convert_board_dig_in_raw(&block, &h);
    assert_eq!(r, vec![Vec::<bool>::new(), Vec::new()]);
}

#[test]
fn dc_stream_absent_when_flag_unset() {
    let h = header(1, vec![], vec![], false);
    let mut block = empty_block(vec![0]);
    block.amplifier_data = Some(vec![vec![32768]]);
    block.dc_amplifier_data = Some(vec![vec![512]]);
    block.stim_data = Some(vec![vec![0]]);
    assert!(convert_samples(&h, &block).dc_amplifier_data.is_none());
    let h2 = header(1, vec![], vec![], true);
    assert_eq!(convert_samples(&h2, &block).dc_amplifier_data, Some(vec![vec![0]]));
}

#[test]
fn no_dig_in_channels_gives_empty_lines_despite_words() {
    let h = header(0, vec![], vec![], false);
    let mut block = empty_block(vec![0, 1]);
    block.board_dig_in_raw = Some(vec![0xFFFF, 0xFFFF]);
    let r = convert_samples(&h, &block);
    assert!(r.board_dig_in_data.is_empty());
}

fn full_block() -> (HeaderInfo, RawSampleBlock) {
    let mut h = header(2, vec![0, 3], vec![1], true);
    h.board_adc_channels = vec![channel(0)];
    h.board_dac_channels = vec![channel(0), channel(1)];
    let block = RawSampleBlock {
        timestamps: vec![10, 11, 12],
        amplifier_data: Some(vec![vec![32768, 32963, 0], vec![1, 2, 3]]),
        dc_amplifier_data: Some(vec![vec![512, 513, 511], vec![0, 1023, 512]]),
        stim_data: Some(vec![vec![0x8000, 0x0105, 0x0005], vec![0, 0x2001, 0x4102]]),
        board_adc_data: Some(vec![vec![32768, 65535, 0]]),
        board_dac_data: Some(vec![vec![1, 2, 3], vec![32768, 32769, 32767]]),
        board_dig_in_raw: Some(vec![0b1001, 0b1000, 0]),
        board_dig_out_raw: Some(vec![2, 0, 2]),
    };
    (h, block)
}

#[test]
fn converted_shapes_match_header_and_timestamps() {
    let (h, block) = full_block();
    let r = convert_samples(&h, &block);
    let n = block.timestamps.len();
    let shape_i = |g: &Vec<Vec<i32>>, c: usize| g.len() == c && g.iter().all(|row| row.len() == n);
    let shape_b = |g: &Vec<Vec<bool>>, c: usize| g.len() == c && g.iter().all(|row| row.len() == n);
    assert!(shape_i(&r.amplifier_data, 2));
    assert!(shape_i(r.dc_amplifier_data.as_ref().unwrap(), 2));
    assert!(shape_i(&r.stim.stim_data, 2));
    assert!(shape_b(&r.stim.compliance_limit_data, 2));
    assert!(shape_b(&r.stim.charge_recovery_data, 2));
    assert!(shape_b(&r.stim.amp_settle_data, 2));
    assert!(shape_i(&r.board_adc_data, 1));
    assert!(shape_i(&r.board_dac_data, 2));
    assert!(shape_b(&r.board_dig_in_data, 2));
    assert!(shape_b(&r.board_dig_out_data, 1));
    assert_eq!(r.board_dig_in_data, vec![vec![true, false, false], vec![true, true, false]]);
    assert_eq!(r.stim.stim_data, vec![vec![0, -5, 5], vec![0, 1, -2]]);
}

#[test]
fn converting_twice_gives_identical_results() {
    let (h, block) = full_block();
    let a = convert_samples(&h, &block);
    let b = convert_samples(&h, &block);
    assert_eq!(a.amplifier_data, b.amplifier_data);
    assert_eq!(a.dc_amplifier_data, b.dc_amplifier_data);
    assert_eq!(a.stim.stim_data, b.stim.stim_data);
    assert_eq!(a.stim.compliance_limit_data, b.stim.compliance_limit_data);
    assert_eq!(a.stim.charge_recovery_data, b.stim.charge_recovery_data);
    assert_eq!(a.stim.amp_settle_data, b.stim.amp_settle_data);
    assert_eq!(a.board_adc_data, b.board_adc_data);
    assert_eq!(a.board_dac_data, b.board_dac_data);
    assert_eq!(a.board_dig_in_data, b.board_dig_in_data);
    assert_eq!(a.board_dig_out_data, b.board_dig_out_data);
}

#[test]
fn one_amplifier_channel_end_to_end() {
    let h = header(1, vec![], vec![], false);
    let mut block = empty_block(vec![0, 1]);
    block.amplifier_data = Some(vec![vec![32768, 32963]]);
    block.stim_data = Some(vec![vec![0, 0]]);
    let r = convert_samples(&h, &block);
    assert_eq!(r.amplifier_data, vec![vec![0, 195]]);
    let microvolts: Vec<f32> = r.amplifier_data[0].iter().map(|&c| 0.195f32 * c as f32).collect();
    assert_eq!(microvolts[0], 0.0);
    assert!((microvolts[1] - 38.025).abs() < 1e-4);
    let t: Vec<f32> = block.timestamps.iter().map(|&s| s as f32 / 30000.0f32).collect();
    assert_eq!(t[0], 0.0);
    assert!((t[1] - 3.333e-5).abs() < 1e-8);
}
