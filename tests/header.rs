use neuro_import::{
    channel_entries, convert_amplifier_channels, convert_board_dig_in_channels, convert_notes,
    convert_spike_triggers, project_header, ChannelDescriptor, HeaderInfo, Notes, SpikeTrigger,
};

fn amp_channel() -> ChannelDescriptor {
    ChannelDescriptor {
        native_channel_name: "A-000".to_string(),
        custom_channel_name: "tip".to_string(),
        native_order: 0,
        custom_order: -12,
        chip_channel: 7,
        board_stream: 2,
        port_name: "Port A".to_string(),
        port_prefix: "A".to_string(),
        port_number: 1,
    }
}

fn pairs(v: &[(String, String)]) -> Vec<(&str, &str)> {
    v.iter().map(|(k, x)| (k.as_str(), x.as_str())).collect()
}

fn sample_header() -> HeaderInfo {
    HeaderInfo {
        notes: Notes { note1: "a".to_string(), note2: String::new(), note3: "c c".to_string() },
        reference_channel: "A-001".to_string(),
        dc_amplifier_data_saved: false,
        amplifier_channels: vec![amp_channel()],
        board_adc_channels: Vec::new(),
        board_dac_channels: Vec::new(),
        board_dig_in_channels: vec![ChannelDescriptor { native_order: 15, ..amp_channel() }],
        board_dig_out_channels: Vec::new(),
        spike_triggers: vec![SpikeTrigger {
            voltage_trigger_mode: 1,
            voltage_threshold: -70,
            digital_trigger_channel: 3,
            digital_edge_polarity: 0,
        }],
    }
}

#[test]
fn amplifier_channel_fields_in_decimal() {
    let e = channel_entries(&amp_channel(), true);
    assert_eq!(
        pairs(&e),
        vec![
            ("native_channel_name", "A-000"),
            ("custom_channel_name", "tip"),
            ("native_order", "0"),
            ("custom_order", "-12"),
            ("chip_channel", "7"),
            ("board_stream", "2"),
            ("port_name", "Port A"),
            ("port_prefix", "A"),
            ("port_number", "1"),
        ]
    );
}

#[test]
fn board_channel_fields_leave_out_chip_channel() {
    let c = ChannelDescriptor { native_order: 2147483647, port_number: -2147483648, ..amp_channel() };
    let e = channel_entries(&c, false);
    let keys: Vec<&str> = e.iter().map(|(k, _)| k.as_str()).collect();
    assert!(!keys.contains(&"chip_channel"));
    assert_eq!(e.len(), 8);
    assert_eq!(pairs(&e)[2], ("native_order", "2147483647"));
    assert_eq!(pairs(&e)[7], ("port_number", "-2147483648"));
}

#[test]
fn groups_keep_channel_order() {
    let h = sample_header();
    let amps = convert_amplifier_channels(&h);
    assert_eq!(amps.len(), 1);
    assert_eq!(amps[0].len(), 9);
    let din = convert_board_dig_in_channels(&h);
    assert_eq!(pairs(&din[0])[2], ("native_order", "15"));
}

#[test]
fn notes_are_keyed_note1_to_note3() {
    let h = sample_header();
    assert_eq!(
        pairs(&convert_notes(&h)),
        vec![("note1", "a"), ("note2", ""), ("note3", "c c")]
    );
}

#[test]
fn spike_triggers_have_four_keys() {
    let h = sample_header();
    let t = convert_spike_triggers(&h);
    assert_eq!(t.len(), 1);
    let keys: Vec<(&str, i32)> = t[0].iter().map(|(k, v)| (k.as_str(), *v)).collect();
    assert_eq!(
        keys,
        vec![
            ("voltage_trigger_mode", 1),
            ("voltage_threshold", -70),
            ("digital_trigger_channel", 3),
            ("digital_edge_polarity", 0),
        ]
    );
}

#[test]
fn header_projection_gathers_every_part() {
    let h = sample_header();
    let p = project_header(&h);
    assert_eq!(p.reference_channel, "A-001");
    assert_eq!(p.notes.len(), 3);
    assert_eq!(p.amplifier_channels.len(), 1);
    assert!(p.board_adc_channels.is_empty());
    assert!(p.board_dac_channels.is_empty());
    assert_eq!(p.board_dig_in_channels.len(), 1);
    assert!(p.board_dig_out_channels.is_empty());
    assert_eq!(p.spike_triggers.len(), 1);
}
