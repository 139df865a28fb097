//! Conversion of Intan RHS sample codes into calibrated quantities.
//!
//! The library takes the channel layout of a recording header and the raw
//! per-channel sample codes that a file decoder produced, and turns them into
//! centred analog codes, decoded stimulation words and demultiplexed digital
//! lines. Each analog stream is returned as the signed distance of every code
//! from the stream's zero code; multiplying by the stream's scale factor (see
//! the constants in `analog`) gives the physical value.
pub mod analog;
pub mod block;
pub mod convert;
pub mod digital;
pub mod grid;
pub mod header;
pub mod laws;
pub mod stim;

pub use analog::{center_block, AMPLIFIER_ZERO, BOARD_ANALOG_ZERO, DC_AMPLIFIER_ZERO};
pub use block::{ChannelDescriptor, HeaderInfo, Notes, RawSampleBlock, SpikeTrigger};
pub use convert::{
    convert_amplifier_data, convert_board_adc_data, convert_board_dac_data,
    convert_board_dig_in_raw, convert_board_dig_out_raw, convert_dc_amplifier_data,
    convert_samples, convert_stim_data, converted, ConvertedSamples, SamplesModel,
};
pub use digital::demux_digital;
pub use header::{
    channel_entries, convert_amplifier_channels, convert_board_adc_channels,
    convert_board_dac_channels, convert_board_dig_in_channels, convert_board_dig_out_channels,
    convert_notes, convert_spike_triggers, group_entries, project_header, trigger_entries,
    HeaderProjection,
};
pub use laws::{
    block_fits_header, lemma_absent_streams, lemma_conversion_deterministic,
    lemma_converted_shapes, port_fits, stream_fits,
};
pub use stim::{decode_stim_block, decode_stim_word, StimDataConversion, StimSample};
