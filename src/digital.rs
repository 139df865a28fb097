use vstd::prelude::*;

use crate::block::{digital_orders_valid, ChannelDescriptor};
use crate::grid::bool_grid;
use crate::stim::word_bit;

verus! {

/// One line per channel, one entry per packed word: bit `native_order` of
/// each word.
pub open spec fn digital_lines(words: Seq<u16>, channels: Seq<ChannelDescriptor>) -> Seq<
    Seq<bool>,
> {
    Seq::new(
        channels.len(),
        |i: int| Seq::new(words.len(), |j: int| word_bit(words[j], channels[i].native_order as u16)),
    )
}

/// Whether bit `k` of `w` is set.
fn test_bit(w: u16, k: u16) -> (r: bool)
    requires
        k < 16,
    ensures
        r == word_bit(w, k),
{
    let r: bool = (w & (1u16 << k)) != 0;
    assert(r == word_bit(w, k)) by (bit_vector)
        requires
            r == ((w & (1u16 << k)) != 0),
            k < 16,
    ;
    r
}

/// Transposes a sequence of packed port words into one boolean line per
/// channel, taking for each channel the bit that its native order names.
pub fn demux_digital(words: &Vec<u16>, channels: &Vec<ChannelDescriptor>) -> (r: Vec<Vec<bool>>)
    requires
        digital_orders_valid(channels@),
    ensures
        bool_grid(r@) == digital_lines(words@, channels@),
{
    let mut r: Vec<Vec<bool>> = Vec::new();
    let mut i: usize = 0;
    while i < channels.len()
        invariant
            i <= channels@.len(),
            digital_orders_valid(channels@),
            r@.len() == i,
            forall|k: int| 0 <= k < i ==> (#[trigger] r@[k])@.len() == words@.len(),
            forall|k: int, m: int|
                0 <= k < i && 0 <= m < words@.len() ==> #[trigger] r@[k]@[m] == word_bit(
                    words@[m],
                    channels@[k].native_order as u16,
                ),
        decreases channels@.len() - i,
    {
        let bit: u16 = channels[i].native_order as u16;
        assert(0 <= channels@[i as int].native_order < 16);
        let mut line: Vec<bool> = Vec::new();
        let mut j: usize = 0;
        while j < words.len()
            invariant
                j <= words@.len(),
                bit < 16,
                bit == channels@[i as int].native_order as u16,
                line@.len() == j,
                forall|m: int| 0 <= m < j ==> #[trigger] line@[m] == word_bit(words@[m], bit),
            decreases words@.len() - j,
        {
            line.push(test_bit(words[j], bit));
            j += 1;
        }
        r.push(line);
        i += 1;
    }
    assert(bool_grid(r@) =~~= digital_lines(words@, channels@));
    r
}

} // verus!
