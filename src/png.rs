use vstd::prelude::*;

use crate::chunk::{Chunk, ChunkModel};

verus! {

/// The models of a sequence of chunks.
pub open spec fn chunk_models(chunks: Seq<Chunk>) -> Seq<ChunkModel> {
    chunks.map_values(|c: Chunk| c@)
}

/// The body of a PNG file: its chunks, in file order.
pub struct Png {
    chunks: Vec<Chunk>,
}

impl View for Png {
    type V = Seq<ChunkModel>;

    closed spec fn view(&self) -> Seq<ChunkModel> {
        chunk_models(self.chunks@)
    }
}

impl Png {
    /// Holds the given chunks, in their order.
    pub fn from_chunks(chunks: Vec<Chunk>) -> (r: Png)
        ensures
            r@ == chunk_models(chunks@),
    {
        Png { chunks }
    }

    /// The chunks, in file order.
    pub fn chunks(&self) -> (r: &[Chunk])
        ensures
            chunk_models(r@) == self@,
    {
        self.chunks.as_slice()
    }
}

} // verus!
