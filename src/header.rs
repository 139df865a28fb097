use vstd::prelude::*;

use crate::block::{ChannelDescriptor, HeaderInfo, SpikeTrigger};

verus! {

/// The character of a decimal digit.
pub open spec fn digit_char(d: nat) -> char {
    seq!['0', '1', '2', '3', '4', '5', '6', '7', '8', '9'][(d % 10) as int]
}

/// Decimal digits of a natural number, most significant first, no leading zeros.
pub open spec fn digits(n: nat) -> Seq<char>
    decreases n,
{
    if n < 10 {
        seq![digit_char(n)]
    } else {
        digits(n / 10).push(digit_char(n % 10))
    }
}

/// Decimal text of an integer: a minus sign for a negative value, then digits.
pub open spec fn decimal(n: int) -> Seq<char> {
    if n < 0 {
        seq!['-'] + digits((-n) as nat)
    } else {
        digits(n as nat)
    }
}

/// Relies on `ToString` for `i32` (through its `Display` impl), which writes
/// the value in decimal with a leading minus sign when negative.
#[verifier::external_body]
fn decimal_string(n: i32) -> (r: String)
    ensures
        r@ == decimal(n as int),
{
    n.to_string()
}

/// A key/value list read as character sequences.
pub open spec fn text_pairs(v: Seq<(String, String)>) -> Seq<(Seq<char>, Seq<char>)> {
    v.map_values(|p: (String, String)| (p.0@, p.1@))
}

/// A key/number list read as character sequences and integers.
pub open spec fn number_pairs(v: Seq<(String, i32)>) -> Seq<(Seq<char>, int)> {
    v.map_values(|p: (String, i32)| (p.0@, p.1 as int))
}

/// The fields that every channel group reports, keyed by name.
pub open spec fn common_fields(c: ChannelDescriptor) -> Seq<(Seq<char>, Seq<char>)> {
    seq![
        ("native_channel_name"@, c.native_channel_name@),
        ("custom_channel_name"@, c.custom_channel_name@),
        ("native_order"@, decimal(c.native_order as int)),
        ("custom_order"@, decimal(c.custom_order as int)),
    ]
}

/// The port fields that every channel group reports, keyed by name.
pub open spec fn port_fields(c: ChannelDescriptor) -> Seq<(Seq<char>, Seq<char>)> {
    seq![
        ("port_name"@, c.port_name@),
        ("port_prefix"@, c.port_prefix@),
        ("port_number"@, decimal(c.port_number as int)),
    ]
}

/// The fields of a channel, keyed by name. Amplifier channels also report
/// their chip channel; every group reports its board stream.
pub open spec fn channel_fields(c: ChannelDescriptor, amplifier: bool) -> Seq<(Seq<char>, Seq<char>)> {
    let stream = seq![("board_stream"@, decimal(c.board_stream as int))];
    if amplifier {
        common_fields(c) + seq![("chip_channel"@, decimal(c.chip_channel as int))] + stream
            + port_fields(c)
    } else {
        common_fields(c) + stream + port_fields(c)
    }
}

/// A key paired with a copy of a text value.
fn text_entry(key: &str, value: &String) -> (r: (String, String))
    ensures
        r.0@ == key@,
        r.1@ == value@,
{
    (key.to_owned(), value.clone())
}

/// A key paired with the decimal text of a number.
fn number_entry(key: &str, value: i32) -> (r: (String, String))
    ensures
        r.0@ == key@,
        r.1@ == decimal(value as int),
{
    (key.to_owned(), decimal_string(value))
}

/// The fields of one channel as key/value text pairs, in a fixed key order.
pub fn channel_entries(c: &ChannelDescriptor, amplifier: bool) -> (r: Vec<(String, String)>)
    ensures
        text_pairs(r@) == channel_fields(*c, amplifier),
{
    let mut r: Vec<(String, String)> = Vec::new();
    r.push(text_entry("native_channel_name", &c.native_channel_name));
    r.push(text_entry("custom_channel_name", &c.custom_channel_name));
    r.push(number_entry("native_order", c.native_order));
    r.push(number_entry("custom_order", c.custom_order));
    if amplifier {
        r.push(number_entry("chip_channel", c.chip_channel));
    }
    r.push(number_entry("board_stream", c.board_stream));
    r.push(text_entry("port_name", &c.port_name));
    r.push(text_entry("port_prefix", &c.port_prefix));
    r.push(number_entry("port_number", c.port_number));
    assert(text_pairs(r@) =~= channel_fields(*c, amplifier));
    r
}

/// A list of key/value lists read as character sequences.
pub open spec fn text_records(v: Seq<Vec<(String, String)>>) -> Seq<Seq<(Seq<char>, Seq<char>)>> {
    v.map_values(|e: Vec<(String, String)>| text_pairs(e@))
}

/// The fields of every channel of a group, in the group's order.
pub open spec fn group_fields(channels: Seq<ChannelDescriptor>, amplifier: bool) -> Seq<
    Seq<(Seq<char>, Seq<char>)>,
> {
    channels.map_values(|c: ChannelDescriptor| channel_fields(c, amplifier))
}

/// One key/value list per channel of a group, in the group's order.
pub fn group_entries(channels: &Vec<ChannelDescriptor>, amplifier: bool) -> (r: Vec<
    Vec<(String, String)>,
>)
    ensures
        text_records(r@) == group_fields(channels@, amplifier),
{
    let mut r: Vec<Vec<(String, String)>> = Vec::new();
    let mut i: usize = 0;
    while i < channels.len()
        invariant
            i <= channels@.len(),
            r@.len() == i,
            forall|k: int|
                0 <= k < i ==> text_pairs((#[trigger] r@[k])@) == channel_fields(
                    channels@[k],
                    amplifier,
                ),
        decreases channels@.len() - i,
    {
        r.push(channel_entries(&channels[i], amplifier));
        i += 1;
    }
    assert(text_records(r@) =~= group_fields(channels@, amplifier));
    r
}

/// The amplifier channels, each with its chip channel.
pub fn convert_amplifier_channels(header: &HeaderInfo) -> (r: Vec<Vec<(String, String)>>)
    ensures
        text_records(r@) == group_fields(header.amplifier_channels@, true),
{
    group_entries(&header.amplifier_channels, true)
}

/// The board ADC channels.
pub fn convert_board_adc_channels(header: &HeaderInfo) -> (r: Vec<Vec<(String, String)>>)
    ensures
        text_records(r@) == group_fields(header.board_adc_channels@, false),
{
    group_entries(&header.board_adc_channels, false)
}

/// The board DAC channels.
pub fn convert_board_dac_channels(header: &HeaderInfo) -> (r: Vec<Vec<(String, String)>>)
    ensures
        text_records(r@) == group_fields(header.board_dac_channels@, false),
{
    group_entries(&header.board_dac_channels, false)
}

/// The digital-input channels.
pub fn convert_board_dig_in_channels(header: &HeaderInfo) -> (r: Vec<Vec<(String, String)>>)
    ensures
        text_records(r@) == group_fields(header.board_dig_in_channels@, false),
{
    group_entries(&header.board_dig_in_channels, false)
}

/// The digital-output channels.
pub fn convert_board_dig_out_channels(header: &HeaderInfo) -> (r: Vec<Vec<(String, String)>>)
    ensures
        text_records(r@) == group_fields(header.board_dig_out_channels@, false),
{
    group_entries(&header.board_dig_out_channels, false)
}

/// The three notes keyed note1, note2 and note3.
pub open spec fn note_fields(header: HeaderInfo) -> Seq<(Seq<char>, Seq<char>)> {
    seq![
        ("note1"@, header.notes.note1@),
        ("note2"@, header.notes.note2@),
        ("note3"@, header.notes.note3@),
    ]
}

/// The header's notes as key/value text pairs.
pub fn convert_notes(header: &HeaderInfo) -> (r: Vec<(String, String)>)
    ensures
        text_pairs(r@) == note_fields(*header),
{
    let mut r: Vec<(String, String)> = Vec::new();
    r.push(text_entry("note1", &header.notes.note1));
    r.push(text_entry("note2", &header.notes.note2));
    r.push(text_entry("note3", &header.notes.note3));
    assert(text_pairs(r@) =~= note_fields(*header));
    r
}

/// The four codes of a spike trigger, keyed by name.
pub open spec fn trigger_fields(t: SpikeTrigger) -> Seq<(Seq<char>, int)> {
    seq![
        ("voltage_trigger_mode"@, t.voltage_trigger_mode as int),
        ("voltage_threshold"@, t.voltage_threshold as int),
        ("digital_trigger_channel"@, t.digital_trigger_channel as int),
        ("digital_edge_polarity"@, t.digital_edge_polarity as int),
    ]
}

/// A list of key/number lists read as character sequences and integers.
pub open spec fn number_records(v: Seq<Vec<(String, i32)>>) -> Seq<Seq<(Seq<char>, int)>> {
    v.map_values(|e: Vec<(String, i32)>| number_pairs(e@))
}

/// The four codes of one spike trigger as key/number pairs.
pub fn trigger_entries(t: &SpikeTrigger) -> (r: Vec<(String, i32)>)
    ensures
        number_pairs(r@) == trigger_fields(*t),
{
    let mut r: Vec<(String, i32)> = Vec::new();
    r.push(("voltage_trigger_mode".to_owned(), t.voltage_trigger_mode));
    r.push(("voltage_threshold".to_owned(), t.voltage_threshold));
    r.push(("digital_trigger_channel".to_owned(), t.digital_trigger_channel));
    r.push(("digital_edge_polarity".to_owned(), t.digital_edge_polarity));
    assert(number_pairs(r@) =~= trigger_fields(*t));
    r
}

/// One key/number list per spike trigger of the header, in order.
pub fn convert_spike_triggers(header: &HeaderInfo) -> (r: Vec<Vec<(String, i32)>>)
    ensures
        number_records(r@) == header.spike_triggers@.map_values(|t: SpikeTrigger| trigger_fields(t)),
{
    let triggers: &Vec<SpikeTrigger> = &header.spike_triggers;
    let mut r: Vec<Vec<(String, i32)>> = Vec::new();
    let mut i: usize = 0;
    while i < triggers.len()
        invariant
            i <= triggers@.len(),
            triggers == &header.spike_triggers,
            r@.len() == i,
            forall|k: int|
                0 <= k < i ==> number_pairs((#[trigger] r@[k])@) == trigger_fields(triggers@[k]),
        decreases triggers@.len() - i,
    {
        r.push(trigger_entries(&triggers[i]));
        i += 1;
    }
    assert(number_records(r@) =~= triggers@.map_values(|t: SpikeTrigger| trigger_fields(t)));
    r
}

/// Everything the header reports besides its floating-point settings, as
/// key/value lists.
#[derive(Clone, Debug)]
pub struct HeaderProjection {
    pub notes: Vec<(String, String)>,
    pub reference_channel: String,
    pub amplifier_channels: Vec<Vec<(String, String)>>,
    pub board_adc_channels: Vec<Vec<(String, String)>>,
    pub board_dac_channels: Vec<Vec<(String, String)>>,
    pub board_dig_in_channels: Vec<Vec<(String, String)>>,
    pub board_dig_out_channels: Vec<Vec<(String, String)>>,
    pub spike_triggers: Vec<Vec<(String, i32)>>,
}

impl HeaderProjection {
    /// Each part is the projection of the corresponding part of `header`.
    pub open spec fn projects(&self, header: HeaderInfo) -> bool {
        &&& text_pairs(self.notes@) == note_fields(header)
        &&& self.reference_channel@ == header.reference_channel@
        &&& text_records(self.amplifier_channels@) == group_fields(header.amplifier_channels@, true)
        &&& text_records(self.board_adc_channels@) == group_fields(header.board_adc_channels@, false)
        &&& text_records(self.board_dac_channels@) == group_fields(header.board_dac_channels@, false)
        &&& text_records(self.board_dig_in_channels@) == group_fields(
            header.board_dig_in_channels@,
            false,
        )
        &&& text_records(self.board_dig_out_channels@) == group_fields(
            header.board_dig_out_channels@,
            false,
        )
        &&& number_records(self.spike_triggers@) == header.spike_triggers@.map_values(
            |t: SpikeTrigger| trigger_fields(t),
        )
    }
}

/// Re-expresses the header's notes, channel groups and spike triggers.
pub fn project_header(header: &HeaderInfo) -> (r: HeaderProjection)
    ensures
        r.projects(*header),
{
    HeaderProjection {
        notes: convert_notes(header),
        reference_channel: header.reference_channel.clone(),
        amplifier_channels: convert_amplifier_channels(header),
        board_adc_channels: convert_board_adc_channels(header),
        board_dac_channels: convert_board_dac_channels(header),
        board_dig_in_channels: convert_board_dig_in_channels(header),
        board_dig_out_channels: convert_board_dig_out_channels(header),
        spike_triggers: convert_spike_triggers(header),
    }
}

} // verus!
