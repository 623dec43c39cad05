//! Double buffering: a readable current field and a write target.

use crate::field::{ChannelLayout, Field, FieldView, Sample, MAX_DIM};
use vstd::prelude::*;

verus! {

/// The mathematical content of a double buffer.
pub ghost struct BufferView {
    /// The readable current state.
    pub front: FieldView,
    /// The write target of the next pass.
    pub back: FieldView,
}

impl BufferView {
    /// Both fields are well formed and cover the same grid.
    pub open spec fn wf(self) -> bool {
        self.front.wf() && self.back.wf() && self.front.same_shape(self.back)
    }

    /// The pair with the roles of its fields exchanged.
    pub open spec fn swapped(self) -> BufferView {
        BufferView { front: self.back, back: self.front }
    }
}

/// A front/back pair of fields over one grid. Passes read the front field
/// and write the back field; a swap then makes the result current.
pub struct DoubleBuffer {
    front: Field,
    back: Field,
}

impl View for DoubleBuffer {
    type V = BufferView;

    closed spec fn view(&self) -> BufferView {
        BufferView { front: self.front@, back: self.back@ }
    }
}

impl DoubleBuffer {
    /// A pair of zero-initialised fields, or `None` if a dimension is zero
    /// or larger than [`MAX_DIM`].
    pub fn new(width: usize, height: usize, layout: ChannelLayout) -> (out: Option<DoubleBuffer>)
        ensures
            out.is_some() <==> 1 <= width <= MAX_DIM && 1 <= height
                <= MAX_DIM,
            out.is_some() ==> ({
                let b = out.unwrap()@;
                &&& b.wf()
                &&& b.front.width == width
                &&& b.front.height == height
                &&& b.front.layout == layout
                &&& b.back.layout == layout
                &&& b.front.is_blank()
                &&& b.back.is_blank()
            }),
    {
        let front = Field::allocate(width, height, layout);
        let back = Field::allocate(width, height, layout);
        match (front, back) {
            (Some(front), Some(back)) => Some(DoubleBuffer { front, back }),
            _ => None,
        }
    }

    /// Pairs two fields, or returns `None` if they do not cover the same
    /// grid.
    pub fn from_fields(front: Field, back: Field) -> (out: Option<DoubleBuffer>)
        ensures
            out.is_some() <==> front@.same_shape(back@),
            out.is_some() ==> out.unwrap()@ == (BufferView { front: front@, back: back@ })
                && out.unwrap()@.wf(),
    {
        if front.width() == back.width() && front.height() == back.height() {
            Some(DoubleBuffer { front, back })
        } else {
            None
        }
    }

    /// The readable current state.
    pub fn front(&self) -> (f: &Field)
        ensures
            f@ == self@.front,
    {
        &self.front
    }

    /// The field that the next pass will overwrite.
    pub fn back(&self) -> (f: &Field)
        ensures
            f@ == self@.back,
    {
        &self.back
    }

    /// The front field to read together with the back field to write.
    pub fn parts(&mut self) -> (pair: (&Field, &mut Field))
        ensures
            pair.0@ == old(self)@.front,
            pair.1@ == old(self)@.back,
            final(self)@ == (BufferView { front: old(self)@.front, back: final(pair.1)@ }),
    {
        (&self.front, &mut self.back)
    }

    /// Exchanges the roles of the two fields. No sample is copied.
    pub fn swap(&mut self)
        ensures
            final(self)@ == old(self)@.swapped(),
    {
        core::mem::swap(&mut self.front, &mut self.back);
    }

    /// Overwrites the sample at `index` of the front field. An index past
    /// the end is rejected and leaves the buffer as it was.
    pub fn write_front(&mut self, index: usize, sample: Sample) -> (written: bool)
        ensures
            written <==> index < old(self)@.front.samples.len(),
            written ==> final(self)@ == (BufferView {
                front: old(self)@.front.with_samples(
                    old(self)@.front.samples.update(index as int, sample),
                ),
                back: old(self)@.back,
            }),
            !written ==> final(self)@ == old(self)@,
    {
        self.front.write_row_major(index, sample)
    }
}

/// Swapping twice restores both fields to their places.
pub proof fn lemma_swap_is_involution(buffer: BufferView)
    ensures
        buffer.swapped().swapped() == buffer,
{
}

} // verus!
