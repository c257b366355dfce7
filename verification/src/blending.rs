use vstd::prelude::*;

verus! {

/// The error a buffer view reports when it has no memory behind it
/// (ozz-animation's `OzzError::InvalidIndex`).
#[derive(Debug, Clone, Copy, PartialEq, Eq)]
pub enum BufferError {
    InvalidIndex,
}

/// The number of transforms a buffer view over foreign memory exposes.
///
/// A view without memory (`has_data` false, a null pointer on the C side)
/// reports `InvalidIndex`; otherwise it exposes `count` transforms. A count
/// below zero names no slice, so a view with memory must have a count that is
/// not negative.
pub fn soa_transform_buffer_len(has_data: bool, count: i32) -> (r: Result<usize, BufferError>)
    requires
        has_data ==> count >= 0,
    ensures
        !has_data ==> r == Err::<usize, BufferError>(BufferError::InvalidIndex),
        has_data ==> r == Ok::<usize, BufferError>(count as usize),
{
    if !has_data {
        Err(BufferError::InvalidIndex)
    } else {
        Ok(count as usize)
    }
}

/// Sets the number of layers in a blending job's layer list to `layer_count`.
///
/// The list is cut to its first `layer_count` layers. The count is taken as
/// the list's new length without creating layers, so it can only shrink the
/// list or keep it as it is: a count above the current length, or below zero,
/// names layers that do not exist. The layers cut off are not dropped: their
/// memory may belong to the C side, and is left to it.
pub fn ozz_blendingjob_set_layer_count<L>(layers: &mut Vec<L>, layer_count: i32)
    requires
        0 <= layer_count <= old(layers).len(),
    ensures
        final(layers)@ == old(layers)@.take(layer_count as int),
{
    let count = layer_count as usize;
    while layers.len() > count
        invariant
            count <= layers.len() <= old(layers).len(),
            count == layer_count,
            layers@ == old(layers)@.take(layers.len() as int),
        decreases layers.len(),
    {
        let cut = layers.pop().unwrap();
        let _kept = std::mem::ManuallyDrop::new(cut);
    }
}

/// Puts `layer` at position `layer_index` of a blending job's layer list,
/// in place of the layer that was there. The index must name an existing
/// layer.
pub fn ozz_blendingjob_set_layer<L>(layers: &mut Vec<L>, layer_index: i32, layer: L)
    requires
        0 <= layer_index < old(layers).len(),
    ensures
        final(layers)@ == old(layers)@.update(layer_index as int, layer),
{
    layers.set(layer_index as usize, layer);
}

} // verus!
