//! The parallel tile scheduler's work partition. The renderer groups the
//! image's pixel slots into row-sized chunks; workers claim chunks one at a
//! time and each worker fills every slot of its chunk. The lemmas here state
//! why that scheme is sound: the chunks partition the slots, so each pixel is
//! written by exactly one worker, and writes to distinct slots commute, so
//! the finished image does not depend on worker count or timing.

use vstd::prelude::*;

use crate::colour::Colour;
use crate::image::Image;

verus! {

/// The chunk that covers buffer slot `i` when chunks are `width` slots long.
pub open spec fn chunk_of_slot(width: int, i: int) -> int {
    i / width
}

/// The half-open ranges of buffer slots, one row-sized chunk per image row,
/// in the order the scheduler hands them to workers.
pub fn row_chunks(width: u16, height: u16) -> (chunks: Vec<(usize, usize)>)
    requires
        1 <= width,
    ensures
        chunks@.len() == height,
        forall|j: int|
            0 <= j < height ==> chunks@[j].0 == j * width && chunks@[j].1 == (j + 1) * width,
{
    proof {
        assert((width as int) * (height as int) <= 65535 * 65535) by (nonlinear_arith)
            requires
                width <= 65535,
                height <= 65535,
        ;
    }
    let mut chunks: Vec<(usize, usize)> = Vec::new();
    let mut j: usize = 0;
    while j < height as usize
        invariant
            chunks@.len() == j,
            j <= height,
            width * height <= 65535 * 65535,
            forall|k: int|
                0 <= k < j ==> chunks@[k].0 == k * width && chunks@[k].1 == (k + 1) * width,
        decreases height - j,
    {
        proof {
            assert(0 <= j * (width as int) && j * (width as int) <= (j + 1) * (width as int)
                && (j + 1) * (width as int) <= (width as int) * (height as int))
                by (nonlinear_arith)
                requires
                    0 <= j,
                    j + 1 <= height,
                    0 <= width,
            ;
        }
        let start: usize = j * width as usize;
        let end: usize = (j + 1) * width as usize;
        chunks.push((start, end));
        j = j + 1;
    }
    chunks
}

/// Writes one worker's finished chunk into the image. Slot `start + k` takes
/// the chunk's `k`-th colour where the renderer produced one, and keeps its
/// background where the primary ray hit nothing; no slot outside the chunk
/// changes.
pub fn apply_chunk(image: &mut Image, start: usize, colours: &Vec<Option<Colour>>)
    requires
        old(image).wf(),
        start + colours@.len() <= old(image).view().len(),
    ensures
        final(image).wf(),
        final(image).spec_width() == old(image).spec_width(),
        final(image).spec_height() == old(image).spec_height(),
        forall|k: int|
            0 <= k < colours@.len() ==> #[trigger] final(image).view()[start + k] == match colours@[k] {
                Some(c) => c,
                None => old(image).view()[start + k],
            },
        forall|i: int|
            0 <= i < old(image).view().len() && !(start <= i < start + colours@.len())
                ==> #[trigger] final(image).view()[i] == old(image).view()[i],
{
    let mut k: usize = 0;
    while k < colours.len()
        invariant
            k <= colours@.len(),
            start + colours@.len() <= image.view().len(),
            image.wf(),
            image.spec_width() == old(image).spec_width(),
            image.spec_height() == old(image).spec_height(),
            image.view().len() == old(image).view().len(),
            forall|j: int|
                0 <= j < k ==> #[trigger] image.view()[start + j] == match colours@[j] {
                    Some(c) => c,
                    None => old(image).view()[start + j],
                },
            forall|i: int|
                0 <= i < old(image).view().len() && !(start <= i < start + k)
                    ==> #[trigger] image.view()[i] == old(image).view()[i],
        decreases colours@.len() - k,
    {
        proof {
            assert((image.spec_width() as int) * (image.spec_height() as int) <= 65535 * 65535)
                by (nonlinear_arith)
                requires
                    image.spec_width() <= 65535,
                    image.spec_height() <= 65535,
            ;
        }
        if let Some(colour) = colours[k] {
            image.set_slot(start + k, colour);
        }
        k = k + 1;
    }
}

/// The row chunks partition the pixel slots: every slot of the buffer lies in
/// the chunk `chunk_of_slot` names, and in no other. One worker therefore
/// writes each pixel, and none is skipped, whatever order chunks are claimed
/// in.
pub proof fn lemma_chunks_partition(width: int, height: int, i: int)
    requires
        1 <= width,
        0 <= i < width * height,
    ensures
        0 <= chunk_of_slot(width, i) < height,
        chunk_of_slot(width, i) * width <= i < (chunk_of_slot(width, i) + 1) * width,
        forall|j: int|
            0 <= j < height && #[trigger] (j * width) <= i && i < (j + 1) * width ==> j
                == chunk_of_slot(width, i),
{
    assert(0 <= i / width < height && (i / width) * width <= i < (i / width + 1) * width)
        by (nonlinear_arith)
        requires
            1 <= width,
            0 <= i < width * height,
    ;
    assert forall|j: int|
        0 <= j < height && #[trigger] (j * width) <= i && i < (j + 1) * width implies j
        == chunk_of_slot(width, i) by {
        assert(j * width <= i < (j + 1) * width ==> j == i / width) by (nonlinear_arith)
            requires
                1 <= width,
                0 <= i,
        ;
    }
}

/// Writes to two distinct slots commute. With each slot written by exactly
/// one worker, the finished buffer is the same whichever worker's write lands
/// first: rendering a scene is deterministic whatever the parallelism.
pub proof fn lemma_disjoint_writes_commute(
    buffer: Seq<Colour>,
    i: int,
    ci: Colour,
    j: int,
    cj: Colour,
)
    requires
        0 <= i < buffer.len(),
        0 <= j < buffer.len(),
        i != j,
    ensures
        buffer.update(i, ci).update(j, cj) == buffer.update(j, cj).update(i, ci),
{
    assert(buffer.update(i, ci).update(j, cj) =~= buffer.update(j, cj).update(i, ci));
}

} // verus!
