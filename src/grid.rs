use vstd::prelude::*;

verus! {

/// A channels-by-samples block of 32-bit values, read as mathematical integers.
pub open spec fn int_grid(v: Seq<Vec<i32>>) -> Seq<Seq<int>> {
    v.map_values(|row: Vec<i32>| row@.map_values(|x: i32| x as int))
}

/// A channels-by-samples block of flags, read as sequences.
pub open spec fn bool_grid(v: Seq<Vec<bool>>) -> Seq<Seq<bool>> {
    v.map_values(|row: Vec<bool>| row@)
}

/// A channels-by-samples block of 16-bit codes, read as sequences.
pub open spec fn code_grid(v: Seq<Vec<u16>>) -> Seq<Seq<u16>> {
    v.map_values(|row: Vec<u16>| row@)
}

/// The number of channels and the number of samples of each channel.
pub open spec fn has_shape<T>(g: Seq<Seq<T>>, channels: int, samples: int) -> bool {
    &&& g.len() == channels
    &&& forall|i: int| 0 <= i < g.len() ==> (#[trigger] g[i]).len() == samples
}

} // verus!
