use vstd::prelude::*;

use crate::grid::{code_grid, int_grid};

verus! {

/// Zero code of the amplifier stream (offset binary); 0.195 microvolts per step.
pub const AMPLIFIER_ZERO: u16 = 32768;

/// Zero code of the DC-amplifier stream; -0.01923 volts per step.
pub const DC_AMPLIFIER_ZERO: u16 = 512;

/// Zero code of the board ADC and DAC streams; 312.5e-6 volts per step.
pub const BOARD_ANALOG_ZERO: u16 = 32768;

/// Signed distance of each code of a block from the zero code.
pub open spec fn centered(raw: Seq<Seq<u16>>, zero: int) -> Seq<Seq<int>> {
    raw.map_values(|row: Seq<u16>| row.map_values(|c: u16| c as int - zero))
}

/// Subtracts `zero` from every code of a channels-by-samples block.
pub fn center_block(raw: &Vec<Vec<u16>>, zero: u16) -> (r: Vec<Vec<i32>>)
    ensures
        int_grid(r@) == centered(code_grid(raw@), zero as int),
{
    let mut r: Vec<Vec<i32>> = Vec::new();
    let mut i: usize = 0;
    while i < raw.len()
        invariant
            i <= raw@.len(),
            r@.len() == i,
            forall|k: int| 0 <= k < i ==> (#[trigger] r@[k])@.len() == raw@[k]@.len(),
            forall|k: int, m: int|
                0 <= k < i && 0 <= m < raw@[k]@.len() ==> #[trigger] r@[k]@[m] as int
                    == raw@[k]@[m] as int - zero as int,
        decreases raw@.len() - i,
    {
        let row: &Vec<u16> = &raw[i];
        let mut out: Vec<i32> = Vec::new();
        let mut j: usize = 0;
        while j < row.len()
            invariant
                j <= row@.len(),
                out@.len() == j,
                forall|m: int| 0 <= m < j ==> #[trigger] out@[m] as int == row@[m] as int - zero as int,
            decreases row@.len() - j,
        {
            out.push(row[j] as i32 - zero as i32);
            j += 1;
        }
        r.push(out);
        i += 1;
    }
    assert(int_grid(r@) =~~= centered(code_grid(raw@), zero as int));
    r
}

} // verus!
