use vstd::prelude::*;

use crate::grid::{bool_grid, code_grid, int_grid};

verus! {

/// Bit `k` of a 16-bit word (bit 0 is the least significant).
pub open spec fn word_bit(w: u16, k: u16) -> bool {
    (w >> k) & 1u16 == 1u16
}

/// Signed current amplitude of a stimulation word: the magnitude in bits 0-7,
/// negated when the polarity bit 8 is set.
pub open spec fn stim_amplitude(w: u16) -> int {
    if word_bit(w, 8) {
        -((w as int) % 256)
    } else {
        (w as int) % 256
    }
}

/// One decoded stimulation command word.
#[derive(Clone, Copy, Debug, PartialEq, Eq)]
pub struct StimSample {
    pub amplitude: i32,
    pub compliance_limit: bool,
    pub charge_recovery: bool,
    pub amp_settle: bool,
}

impl StimSample {
    /// What a word decodes to: flags from bits 15, 14 and 13, amplitude as above.
    pub open spec fn decodes(self, w: u16) -> bool {
        &&& self.amplitude as int == stim_amplitude(w)
        &&& self.compliance_limit == word_bit(w, 15)
        &&& self.charge_recovery == word_bit(w, 14)
        &&& self.amp_settle == word_bit(w, 13)
    }
}

/// Decodes a stimulation command word into its amplitude and three flags.
pub fn decode_stim_word(w: u16) -> (r: StimSample)
    ensures
        r.decodes(w),
{
    let magnitude: u16 = w & 0x00FF;
    let negative: bool = (w & 0x0100) != 0;
    let compliance_limit: bool = (w & 0x8000) != 0;
    let charge_recovery: bool = (w & 0x4000) != 0;
    let amp_settle: bool = (w & 0x2000) != 0;
    proof {
        assert(magnitude == w % 256) by (bit_vector)
            requires
                magnitude == w & 0x00FF,
        ;
        assert(negative == word_bit(w, 8)) by (bit_vector)
            requires
                negative == ((w & 0x0100) != 0),
        ;
        assert(compliance_limit == word_bit(w, 15)) by (bit_vector)
            requires
                compliance_limit == ((w & 0x8000) != 0),
        ;
        assert(charge_recovery == word_bit(w, 14)) by (bit_vector)
            requires
                charge_recovery == ((w & 0x4000) != 0),
        ;
        assert(amp_settle == word_bit(w, 13)) by (bit_vector)
            requires
                amp_settle == ((w & 0x2000) != 0),
        ;
    }
    let amplitude: i32 = if negative {
        -(magnitude as i32)
    } else {
        magnitude as i32
    };
    StimSample { amplitude, compliance_limit, charge_recovery, amp_settle }
}

} // verus!

verus! {

/// Amplitude of every word of a channels-by-samples block.
pub open spec fn stim_amplitudes(raw: Seq<Seq<u16>>) -> Seq<Seq<int>> {
    raw.map_values(|row: Seq<u16>| row.map_values(|w: u16| stim_amplitude(w)))
}

/// Bit `k` of every word of a channels-by-samples block.
pub open spec fn flag_plane(raw: Seq<Seq<u16>>, k: u16) -> Seq<Seq<bool>> {
    raw.map_values(|row: Seq<u16>| row.map_values(|w: u16| word_bit(w, k)))
}

/// A stimulation block decoded into amplitudes and three flag planes.
#[derive(Clone, Debug)]
pub struct StimDataConversion {
    pub stim_data: Vec<Vec<i32>>,
    pub compliance_limit_data: Vec<Vec<bool>>,
    pub charge_recovery_data: Vec<Vec<bool>>,
    pub amp_settle_data: Vec<Vec<bool>>,
}

impl StimDataConversion {
    /// The four planes are those of `raw`, word by word.
    pub open spec fn decodes(&self, raw: Seq<Seq<u16>>) -> bool {
        &&& int_grid(self.stim_data@) == stim_amplitudes(raw)
        &&& bool_grid(self.compliance_limit_data@) == flag_plane(raw, 15)
        &&& bool_grid(self.charge_recovery_data@) == flag_plane(raw, 14)
        &&& bool_grid(self.amp_settle_data@) == flag_plane(raw, 13)
    }
}

/// Decodes every word of a channels-by-samples stimulation block in one pass.
pub fn decode_stim_block(raw: &Vec<Vec<u16>>) -> (r: StimDataConversion)
    ensures
        r.decodes(code_grid(raw@)),
{
    let mut amps: Vec<Vec<i32>> = Vec::new();
    let mut comp: Vec<Vec<bool>> = Vec::new();
    let mut rec: Vec<Vec<bool>> = Vec::new();
    let mut settle: Vec<Vec<bool>> = Vec::new();
    let mut i: usize = 0;
    while i < raw.len()
        invariant
            i <= raw@.len(),
            amps@.len() == i,
            comp@.len() == i,
            rec@.len() == i,
            settle@.len() == i,
            forall|k: int| 0 <= k < i ==> (#[trigger] amps@[k])@.len() == raw@[k]@.len(),
            forall|k: int| 0 <= k < i ==> (#[trigger] comp@[k])@.len() == raw@[k]@.len(),
            forall|k: int| 0 <= k < i ==> (#[trigger] rec@[k])@.len() == raw@[k]@.len(),
            forall|k: int| 0 <= k < i ==> (#[trigger] settle@[k])@.len() == raw@[k]@.len(),
            forall|k: int, m: int|
                0 <= k < i && 0 <= m < raw@[k]@.len() ==> #[trigger] amps@[k]@[m] as int
                    == stim_amplitude(raw@[k]@[m]),
            forall|k: int, m: int|
                0 <= k < i && 0 <= m < raw@[k]@.len() ==> #[trigger] comp@[k]@[m] == word_bit(
                    raw@[k]@[m],
                    15,
                ),
            forall|k: int, m: int|
                0 <= k < i && 0 <= m < raw@[k]@.len() ==> #[trigger] rec@[k]@[m] == word_bit(
                    raw@[k]@[m],
                    14,
                ),
            forall|k: int, m: int|
                0 <= k < i && 0 <= m < raw@[k]@.len() ==> #[trigger] settle@[k]@[m] == word_bit(
                    raw@[k]@[m],
                    13,
                ),
        decreases raw@.len() - i,
    {
        let row: &Vec<u16> = &raw[i];
        let mut a: Vec<i32> = Vec::new();
        let mut c: Vec<bool> = Vec::new();
        let mut g: Vec<bool> = Vec::new();
        let mut s: Vec<bool> = Vec::new();
        let mut j: usize = 0;
        while j < row.len()
            invariant
                j <= row@.len(),
                a@.len() == j,
                c@.len() == j,
                g@.len() == j,
                s@.len() == j,
                forall|m: int| 0 <= m < j ==> #[trigger] a@[m] as int == stim_amplitude(row@[m]),
                forall|m: int| 0 <= m < j ==> #[trigger] c@[m] == word_bit(row@[m], 15),
                forall|m: int| 0 <= m < j ==> #[trigger] g@[m] == word_bit(row@[m], 14),
                forall|m: int| 0 <= m < j ==> #[trigger] s@[m] == word_bit(row@[m], 13),
            decreases row@.len() - j,
        {
            let d: StimSample = decode_stim_word(row[j]);
            a.push(d.amplitude);
            c.push(d.compliance_limit);
            g.push(d.charge_recovery);
            s.push(d.amp_settle);
            j += 1;
        }
        amps.push(a);
        comp.push(c);
        rec.push(g);
        settle.push(s);
        i += 1;
    }
    let r = StimDataConversion {
        stim_data: amps,
        compliance_limit_data: comp,
        charge_recovery_data: rec,
        amp_settle_data: settle,
    };
    assert(int_grid(r.stim_data@) =~~= stim_amplitudes(code_grid(raw@)));
    assert(bool_grid(r.compliance_limit_data@) =~~= flag_plane(code_grid(raw@), 15));
    assert(bool_grid(r.charge_recovery_data@) =~~= flag_plane(code_grid(raw@), 14));
    assert(bool_grid(r.amp_settle_data@) =~~= flag_plane(code_grid(raw@), 13));
    r
}

} // verus!
