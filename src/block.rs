use vstd::prelude::*;

verus! {

/// One channel of a channel group, as the recording header describes it.
///
/// The electrode impedance of amplifier channels is a floating-point quantity
/// and is carried beside this record by the caller.
#[derive(Clone, Debug)]
pub struct ChannelDescriptor {
    pub native_channel_name: String,
    pub custom_channel_name: String,
    /// Position of the channel within its raw block; for a digital channel,
    /// the bit of the packed word that carries it.
    pub native_order: i32,
    pub custom_order: i32,
    pub chip_channel: i32,
    pub board_stream: i32,
    pub port_name: String,
    pub port_prefix: String,
    pub port_number: i32,
}

/// Spike-trigger settings of one amplifier channel, as raw numeric codes.
#[derive(Clone, Copy, Debug, PartialEq, Eq)]
pub struct SpikeTrigger {
    pub voltage_trigger_mode: i32,
    pub voltage_threshold: i32,
    pub digital_trigger_channel: i32,
    pub digital_edge_polarity: i32,
}

/// The three free-text notes of a recording.
#[derive(Clone, Debug)]
pub struct Notes {
    pub note1: String,
    pub note2: String,
    pub note3: String,
}

/// What the conversion reads from a recording header: the notes, the
/// reference channel, whether DC-amplifier samples were saved, the five channel
/// groups and the spike triggers. The header's floating-point settings (sample
/// rate, filter bandwidths, stimulation limits) are carried by the caller.
#[derive(Clone, Debug)]
pub struct HeaderInfo {
    pub notes: Notes,
    pub reference_channel: String,
    pub dc_amplifier_data_saved: bool,
    pub amplifier_channels: Vec<ChannelDescriptor>,
    pub board_adc_channels: Vec<ChannelDescriptor>,
    pub board_dac_channels: Vec<ChannelDescriptor>,
    pub board_dig_in_channels: Vec<ChannelDescriptor>,
    pub board_dig_out_channels: Vec<ChannelDescriptor>,
    pub spike_triggers: Vec<SpikeTrigger>,
}

/// Every channel of a digital group names a bit of a 16-bit word.
pub open spec fn digital_orders_valid(channels: Seq<ChannelDescriptor>) -> bool {
    forall|i: int| 0 <= i < channels.len() ==> 0 <= #[trigger] channels[i].native_order < 16
}

impl HeaderInfo {
    /// The header's digital channels each name a bit of the 16-bit port word.
    pub open spec fn wf(&self) -> bool {
        &&& digital_orders_valid(self.board_dig_in_channels@)
        &&& digital_orders_valid(self.board_dig_out_channels@)
    }
}

/// Raw samples of a recording as the decoder hands them over. Each analog and
/// stimulation stream is a channels-by-samples block of 16-bit codes; each
/// digital port holds one packed word per sample.
#[derive(Clone, Debug)]
pub struct RawSampleBlock {
    pub timestamps: Vec<i32>,
    pub amplifier_data: Option<Vec<Vec<u16>>>,
    pub dc_amplifier_data: Option<Vec<Vec<u16>>>,
    pub stim_data: Option<Vec<Vec<u16>>>,
    pub board_adc_data: Option<Vec<Vec<u16>>>,
    pub board_dac_data: Option<Vec<Vec<u16>>>,
    pub board_dig_in_raw: Option<Vec<u16>>,
    pub board_dig_out_raw: Option<Vec<u16>>,
}

} // verus!
