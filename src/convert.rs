use vstd::prelude::*;

use crate::analog::{center_block, centered, AMPLIFIER_ZERO, BOARD_ANALOG_ZERO, DC_AMPLIFIER_ZERO};
use crate::block::{HeaderInfo, RawSampleBlock};
use crate::digital::{demux_digital, digital_lines};
use crate::grid::{bool_grid, code_grid, int_grid};
use crate::stim::{decode_stim_block, flag_plane, stim_amplitudes, StimDataConversion};

verus! {

/// The codes of an optional block; an absent block has no channels.
pub open spec fn block_codes(b: Option<Vec<Vec<u16>>>) -> Seq<Seq<u16>> {
    match b {
        Some(v) => code_grid(v@),
        None => Seq::empty(),
    }
}

/// The lines of a digital port: one per channel of the group, or none when
/// the decoder handed over no words for the port.
pub open spec fn port_lines(words: Option<Vec<u16>>, channels: Seq<crate::block::ChannelDescriptor>) -> Seq<Seq<bool>> {
    match words {
        Some(w) => digital_lines(w@, channels),
        None => Seq::empty(),
    }
}

/// Amplifier codes centred on their zero code (0.195 microvolts per step).
pub fn convert_amplifier_data(data: &RawSampleBlock) -> (r: Vec<Vec<i32>>)
    ensures
        int_grid(r@) == centered(block_codes(data.amplifier_data), AMPLIFIER_ZERO as int),
{
    match &data.amplifier_data {
        Some(raw) => center_block(raw, AMPLIFIER_ZERO),
        None => {
            let r: Vec<Vec<i32>> = Vec::new();
            assert(int_grid(r@) =~= centered(Seq::empty(), AMPLIFIER_ZERO as int));
            r
        },
    }
}

/// DC-amplifier codes centred on their zero code (-0.01923 volts per step).
pub fn convert_dc_amplifier_data(data: &RawSampleBlock) -> (r: Vec<Vec<i32>>)
    ensures
        int_grid(r@) == centered(block_codes(data.dc_amplifier_data), DC_AMPLIFIER_ZERO as int),
{
    match &data.dc_amplifier_data {
        Some(raw) => center_block(raw, DC_AMPLIFIER_ZERO),
        None => {
            let r: Vec<Vec<i32>> = Vec::new();
            assert(int_grid(r@) =~= centered(Seq::empty(), DC_AMPLIFIER_ZERO as int));
            r
        },
    }
}

/// Board ADC codes centred on their zero code (312.5e-6 volts per step).
pub fn convert_board_adc_data(data: &RawSampleBlock) -> (r: Vec<Vec<i32>>)
    ensures
        int_grid(r@) == centered(block_codes(data.board_adc_data), BOARD_ANALOG_ZERO as int),
{
    match &data.board_adc_data {
        Some(raw) => center_block(raw, BOARD_ANALOG_ZERO),
        None => {
            let r: Vec<Vec<i32>> = Vec::new();
            assert(int_grid(r@) =~= centered(Seq::empty(), BOARD_ANALOG_ZERO as int));
            r
        },
    }
}

/// Board DAC codes centred on their zero code (312.5e-6 volts per step).
pub fn convert_board_dac_data(data: &RawSampleBlock) -> (r: Vec<Vec<i32>>)
    ensures
        int_grid(r@) == centered(block_codes(data.board_dac_data), BOARD_ANALOG_ZERO as int),
{
    match &data.board_dac_data {
        Some(raw) => center_block(raw, BOARD_ANALOG_ZERO),
        None => {
            let r: Vec<Vec<i32>> = Vec::new();
            assert(int_grid(r@) =~= centered(Seq::empty(), BOARD_ANALOG_ZERO as int));
            r
        },
    }
}

/// Stimulation words decoded into amplitudes and the three flag planes.
pub fn convert_stim_data(data: &RawSampleBlock) -> (r: StimDataConversion)
    ensures
        r.decodes(block_codes(data.stim_data)),
{
    match &data.stim_data {
        Some(raw) => decode_stim_block(raw),
        None => {
            let r = StimDataConversion {
                stim_data: Vec::new(),
                compliance_limit_data: Vec::new(),
                charge_recovery_data: Vec::new(),
                amp_settle_data: Vec::new(),
            };
            assert(int_grid(r.stim_data@) =~= stim_amplitudes(Seq::empty()));
            assert(bool_grid(r.compliance_limit_data@) =~= flag_plane(Seq::empty(), 15));
            assert(bool_grid(r.charge_recovery_data@) =~= flag_plane(Seq::empty(), 14));
            assert(bool_grid(r.amp_settle_data@) =~= flag_plane(Seq::empty(), 13));
            r
        },
    }
}

/// Digital-input lines, one per channel of the header's digital-input group.
pub fn convert_board_dig_in_raw(data: &RawSampleBlock, header: &HeaderInfo) -> (r: Vec<Vec<bool>>)
    requires
        header.wf(),
    ensures
        bool_grid(r@) == port_lines(data.board_dig_in_raw, header.board_dig_in_channels@),
{
    match &data.board_dig_in_raw {
        Some(words) => demux_digital(words, &header.board_dig_in_channels),
        None => {
            let r: Vec<Vec<bool>> = Vec::new();
            assert(bool_grid(r@) =~= Seq::empty());
            r
        },
    }
}

/// Digital-output lines, one per channel of the header's digital-output group.
pub fn convert_board_dig_out_raw(data: &RawSampleBlock, header: &HeaderInfo) -> (r: Vec<Vec<bool>>)
    requires
        header.wf(),
    ensures
        bool_grid(r@) == port_lines(data.board_dig_out_raw, header.board_dig_out_channels@),
{
    match &data.board_dig_out_raw {
        Some(words) => demux_digital(words, &header.board_dig_out_channels),
        None => {
            let r: Vec<Vec<bool>> = Vec::new();
            assert(bool_grid(r@) =~= Seq::empty());
            r
        },
    }
}

} // verus!

verus! {

/// The converted streams of a recording, as mathematical values.
pub struct SamplesModel {
    pub amplifier: Seq<Seq<int>>,
    pub dc_amplifier: Option<Seq<Seq<int>>>,
    pub stim: Seq<Seq<int>>,
    pub compliance_limit: Seq<Seq<bool>>,
    pub charge_recovery: Seq<Seq<bool>>,
    pub amp_settle: Seq<Seq<bool>>,
    pub board_adc: Seq<Seq<int>>,
    pub board_dac: Seq<Seq<int>>,
    pub board_dig_in: Seq<Seq<bool>>,
    pub board_dig_out: Seq<Seq<bool>>,
}

/// Every stream of a raw block converted under a header's layout. The
/// DC-amplifier stream is present exactly when the header says it was saved.
pub open spec fn converted(header: HeaderInfo, data: RawSampleBlock) -> SamplesModel {
    let stim = block_codes(data.stim_data);
    SamplesModel {
        amplifier: centered(block_codes(data.amplifier_data), AMPLIFIER_ZERO as int),
        dc_amplifier: if header.dc_amplifier_data_saved {
            Some(centered(block_codes(data.dc_amplifier_data), DC_AMPLIFIER_ZERO as int))
        } else {
            None
        },
        stim: stim_amplitudes(stim),
        compliance_limit: flag_plane(stim, 15),
        charge_recovery: flag_plane(stim, 14),
        amp_settle: flag_plane(stim, 13),
        board_adc: centered(block_codes(data.board_adc_data), BOARD_ANALOG_ZERO as int),
        board_dac: centered(block_codes(data.board_dac_data), BOARD_ANALOG_ZERO as int),
        board_dig_in: port_lines(data.board_dig_in_raw, header.board_dig_in_channels@),
        board_dig_out: port_lines(data.board_dig_out_raw, header.board_dig_out_channels@),
    }
}

/// The converted streams of a recording: analog codes centred on their zero
/// codes, decoded stimulation planes and demultiplexed digital lines.
#[derive(Clone, Debug)]
pub struct ConvertedSamples {
    pub amplifier_data: Vec<Vec<i32>>,
    pub dc_amplifier_data: Option<Vec<Vec<i32>>>,
    pub stim: StimDataConversion,
    pub board_adc_data: Vec<Vec<i32>>,
    pub board_dac_data: Vec<Vec<i32>>,
    pub board_dig_in_data: Vec<Vec<bool>>,
    pub board_dig_out_data: Vec<Vec<bool>>,
}

impl View for ConvertedSamples {
    type V = SamplesModel;

    open spec fn view(&self) -> SamplesModel {
        SamplesModel {
            amplifier: int_grid(self.amplifier_data@),
            dc_amplifier: match self.dc_amplifier_data {
                Some(v) => Some(int_grid(v@)),
                None => None,
            },
            stim: int_grid(self.stim.stim_data@),
            compliance_limit: bool_grid(self.stim.compliance_limit_data@),
            charge_recovery: bool_grid(self.stim.charge_recovery_data@),
            amp_settle: bool_grid(self.stim.amp_settle_data@),
            board_adc: int_grid(self.board_adc_data@),
            board_dac: int_grid(self.board_dac_data@),
            board_dig_in: bool_grid(self.board_dig_in_data@),
            board_dig_out: bool_grid(self.board_dig_out_data@),
        }
    }
}

/// Converts every stream of a raw block under the header's channel layout.
pub fn convert_samples(header: &HeaderInfo, data: &RawSampleBlock) -> (r: ConvertedSamples)
    requires
        header.wf(),
    ensures
        r@ == converted(*header, *data),
{
    let dc_amplifier_data = if header.dc_amplifier_data_saved {
        Some(convert_dc_amplifier_data(data))
    } else {
        None
    };
    ConvertedSamples {
        amplifier_data: convert_amplifier_data(data),
        dc_amplifier_data,
        stim: convert_stim_data(data),
        board_adc_data: convert_board_adc_data(data),
        board_dac_data: convert_board_dac_data(data),
        board_dig_in_data: convert_board_dig_in_raw(data, header),
        board_dig_out_data: convert_board_dig_out_raw(data, header),
    }
}

} // verus!
