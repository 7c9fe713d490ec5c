use vstd::prelude::*;

use crate::chunk_type::ChunkType;
use crate::png::Png;

verus! {

/// The type codes of the chunks of `png`, in file order.
pub fn chunk_headers(png: Png) -> (r: Vec<ChunkType>)
    ensures
        r@.len() == png@.len(),
        forall|i: int| 0 <= i < r@.len() ==> (#[trigger] r@[i])@ == png@[i].ctype,
{
    let chunks = png.chunks();
    let mut k: Vec<ChunkType> = Vec::new();
    let mut i: usize = 0;
    while i < chunks.len()
        invariant
            0 <= i <= chunks@.len(),
            chunks@.len() == png@.len(),
            forall|j: int| 0 <= j < chunks@.len() ==> (#[trigger] chunks@[j])@ == png@[j],
            k@.len() == i,
            forall|j: int| 0 <= j < i ==> (#[trigger] k@[j])@ == png@[j].ctype,
        decreases chunks@.len() - i,
    {
        k.push(chunks[i].chunk_type().clone());
        i = i + 1;
    }
    k
}

} // verus!
