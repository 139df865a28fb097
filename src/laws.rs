use vstd::prelude::*;

use crate::analog::centered;
use crate::block::{HeaderInfo, RawSampleBlock};
use crate::convert::{block_codes, converted, ConvertedSamples};
use crate::digital::digital_lines;
use crate::grid::{code_grid, has_shape};
use crate::stim::{flag_plane, stim_amplitudes};

verus! {

/// A raw stream holds `channels` rows of `samples` codes; an absent stream is
/// allowed only for a group without channels.
pub open spec fn stream_fits(b: Option<Vec<Vec<u16>>>, channels: int, samples: int) -> bool {
    match b {
        Some(v) => has_shape(code_grid(v@), channels, samples),
        None => channels == 0,
    }
}

/// A digital port holds one word per sample; an absent port is allowed only
/// for a group without channels.
pub open spec fn port_fits(w: Option<Vec<u16>>, channels: int, samples: int) -> bool {
    match w {
        Some(v) => v@.len() == samples,
        None => channels == 0,
    }
}

/// The decoder's promise: every stream matches the header's channel counts and
/// the number of timestamps. Stimulation words come one row per amplifier
/// channel, and DC-amplifier rows likewise when the header says they were saved.
pub open spec fn block_fits_header(header: HeaderInfo, data: RawSampleBlock) -> bool {
    let n = data.timestamps@.len() as int;
    let amps = header.amplifier_channels@.len() as int;
    &&& stream_fits(data.amplifier_data, amps, n)
    &&& header.dc_amplifier_data_saved ==> stream_fits(data.dc_amplifier_data, amps, n)
    &&& stream_fits(data.stim_data, amps, n)
    &&& stream_fits(data.board_adc_data, header.board_adc_channels@.len() as int, n)
    &&& stream_fits(data.board_dac_data, header.board_dac_channels@.len() as int, n)
    &&& port_fits(data.board_dig_in_raw, header.board_dig_in_channels@.len() as int, n)
    &&& port_fits(data.board_dig_out_raw, header.board_dig_out_channels@.len() as int, n)
}

proof fn lemma_block_codes_shape(b: Option<Vec<Vec<u16>>>, channels: int, samples: int)
    requires
        stream_fits(b, channels, samples),
    ensures
        has_shape(block_codes(b), channels, samples),
{
}

proof fn lemma_centered_shape(raw: Seq<Seq<u16>>, zero: int, channels: int, samples: int)
    requires
        has_shape(raw, channels, samples),
    ensures
        has_shape(centered(raw, zero), channels, samples),
{
    assert forall|i: int| 0 <= i < channels implies (#[trigger] centered(raw, zero)[i]).len()
        == samples by {
        assert(raw[i].len() == samples);
    }
}

proof fn lemma_stim_shape(raw: Seq<Seq<u16>>, channels: int, samples: int)
    requires
        has_shape(raw, channels, samples),
    ensures
        has_shape(stim_amplitudes(raw), channels, samples),
        has_shape(flag_plane(raw, 15), channels, samples),
        has_shape(flag_plane(raw, 14), channels, samples),
        has_shape(flag_plane(raw, 13), channels, samples),
{
    assert forall|i: int| 0 <= i < channels implies (#[trigger] stim_amplitudes(raw)[i]).len()
        == samples by {
        assert(raw[i].len() == samples);
    }
    assert forall|k: u16, i: int| 0 <= i < channels implies (#[trigger] flag_plane(raw, k)[i]).len()
        == samples by {
        assert(raw[i].len() == samples);
    }
}

/// A stream whose flag is unset is absent from the result whatever the raw
/// block holds, and a digital group without channels yields no lines even
/// when the port's words are there.
pub proof fn lemma_absent_streams(header: HeaderInfo, data: RawSampleBlock)
    ensures
        !header.dc_amplifier_data_saved ==> converted(header, data).dc_amplifier is None,
        header.board_dig_in_channels@.len() == 0 ==> converted(header, data).board_dig_in
            == Seq::<Seq<bool>>::empty(),
        header.board_dig_out_channels@.len() == 0 ==> converted(header, data).board_dig_out
            == Seq::<Seq<bool>>::empty(),
{
    let m = converted(header, data);
    if header.board_dig_in_channels@.len() == 0 {
        assert(m.board_dig_in =~= Seq::<Seq<bool>>::empty());
    }
    if header.board_dig_out_channels@.len() == 0 {
        assert(m.board_dig_out =~= Seq::<Seq<bool>>::empty());
    }
}

/// Each converted stream has one row per channel of its header group and one
/// entry per timestamp, when the raw block matches the header.
pub proof fn lemma_converted_shapes(header: HeaderInfo, data: RawSampleBlock)
    requires
        block_fits_header(header, data),
    ensures
        ({
            let m = converted(header, data);
            let n = data.timestamps@.len() as int;
            let amps = header.amplifier_channels@.len() as int;
            &&& has_shape(m.amplifier, amps, n)
            &&& header.dc_amplifier_data_saved ==> m.dc_amplifier is Some && has_shape(
                m.dc_amplifier->0,
                amps,
                n,
            )
            &&& has_shape(m.stim, amps, n)
            &&& has_shape(m.compliance_limit, amps, n)
            &&& has_shape(m.charge_recovery, amps, n)
            &&& has_shape(m.amp_settle, amps, n)
            &&& has_shape(m.board_adc, header.board_adc_channels@.len() as int, n)
            &&& has_shape(m.board_dac, header.board_dac_channels@.len() as int, n)
            &&& has_shape(m.board_dig_in, header.board_dig_in_channels@.len() as int, n)
            &&& has_shape(m.board_dig_out, header.board_dig_out_channels@.len() as int, n)
        }),
{
    let n = data.timestamps@.len() as int;
    let amps = header.amplifier_channels@.len() as int;
    lemma_block_codes_shape(data.amplifier_data, amps, n);
    lemma_centered_shape(block_codes(data.amplifier_data), 32768, amps, n);
    if header.dc_amplifier_data_saved {
        lemma_block_codes_shape(data.dc_amplifier_data, amps, n);
        lemma_centered_shape(block_codes(data.dc_amplifier_data), 512, amps, n);
    }
    lemma_block_codes_shape(data.stim_data, amps, n);
    lemma_stim_shape(block_codes(data.stim_data), amps, n);
    let adc = header.board_adc_channels@.len() as int;
    let dac = header.board_dac_channels@.len() as int;
    lemma_block_codes_shape(data.board_adc_data, adc, n);
    lemma_centered_shape(block_codes(data.board_adc_data), 32768, adc, n);
    lemma_block_codes_shape(data.board_dac_data, dac, n);
    lemma_centered_shape(block_codes(data.board_dac_data), 32768, dac, n);
}

/// Converting the same header and raw block twice gives identical results:
/// the result is a function of the inputs alone.
pub proof fn lemma_conversion_deterministic(
    header: HeaderInfo,
    data: RawSampleBlock,
    first: ConvertedSamples,
    second: ConvertedSamples,
)
    requires
        first@ == converted(header, data),
        second@ == converted(header, data),
    ensures
        first@ == second@,
{
}

} // verus!
