//! Two-dimensional fields of four-channel fixed-point samples.
//!
//! A field is stored row-major: the sample at column `x` of row `y` sits at
//! index `y * width + x`. Reads outside the grid are answered from the
//! nearest edge sample; there is no wrap-around.

use crate::fixed::{
    clamp_int, fixed_to_unorm8, from_unorm8, saturate, to_unorm8, unorm8_to_fixed,
};
use vstd::prelude::*;

verus! {

/// The largest width or height a field may have.
pub const MAX_DIM: usize = 32768;

/// One grid sample: four signed fixed-point channels.
#[derive(Clone, Copy, Debug, PartialEq, Eq, Structural)]
pub struct Sample {
    pub r: i32,
    pub g: i32,
    pub b: i32,
    pub a: i32,
}

/// What the channels of a field stand for.
#[derive(Clone, Copy, Debug, PartialEq, Eq, Structural)]
pub enum ChannelLayout {
    /// `r` and `g` hold the horizontal and vertical velocity.
    Velocity,
    /// All four channels hold a transported colour.
    Color,
    /// `r` holds a scalar: pressure, curl or divergence.
    Scalar,
    /// `r`, `g`, `b`, `a` hold wind `dx`, `dy`, `pressure`, `density`.
    Forcing,
    /// `r`, `g`, `b`, `a` hold a cell's species code, `ra`, `rb`, `clock`.
    Cells,
}

impl Sample {
    /// The sample with every channel zero.
    pub open spec fn zero() -> Sample {
        Sample { r: 0, g: 0, b: 0, a: 0 }
    }

    /// A scalar sample: `value`, limited to the range of a channel, in `r`
    /// and zero elsewhere.
    pub open spec fn scalar(value: int) -> Sample {
        Sample { r: saturate(value) as i32, g: 0, b: 0, a: 0 }
    }

    /// The sample that four eight-bit normalised channels stand for.
    pub open spec fn decode(r: u8, g: u8, b: u8, a: u8) -> Sample {
        Sample {
            r: unorm8_to_fixed(r as int) as i32,
            g: unorm8_to_fixed(g as int) as i32,
            b: unorm8_to_fixed(b as int) as i32,
            a: unorm8_to_fixed(a as int) as i32,
        }
    }

    /// The four eight-bit normalised channels nearest to this sample.
    pub open spec fn encode(self) -> Seq<u8> {
        seq![
            fixed_to_unorm8(self.r as int) as u8,
            fixed_to_unorm8(self.g as int) as u8,
            fixed_to_unorm8(self.b as int) as u8,
            fixed_to_unorm8(self.a as int) as u8,
        ]
    }

    /// Builds a sample from its four channels.
    pub fn new(r: i32, g: i32, b: i32, a: i32) -> (s: Sample)
        ensures
            s == (Sample { r, g, b, a }),
    {
        Sample { r, g, b, a }
    }

    /// Decodes four eight-bit normalised channels.
    pub fn from_unorm8(r: u8, g: u8, b: u8, a: u8) -> (s: Sample)
        ensures
            s == Sample::decode(r, g, b, a),
    {
        Sample { r: from_unorm8(r), g: from_unorm8(g), b: from_unorm8(b), a: from_unorm8(a) }
    }

    /// Encodes the sample as four eight-bit normalised channels.
    pub fn to_unorm8(self) -> (bytes: [u8; 4])
        ensures
            bytes@ == self.encode(),
    {
        let bytes = [to_unorm8(self.r), to_unorm8(self.g), to_unorm8(self.b), to_unorm8(self.a)];
        assert(bytes@ =~= self.encode());
        bytes
    }
}

/// The mathematical content of a field.
pub ghost struct FieldView {
    pub width: nat,
    pub height: nat,
    pub layout: ChannelLayout,
    pub samples: Seq<Sample>,
}

impl FieldView {
    /// Both dimensions are within limits and every grid point has a sample.
    pub open spec fn wf(self) -> bool {
        &&& 1 <= self.width <= MAX_DIM
        &&& 1 <= self.height <= MAX_DIM
        &&& self.samples.len() == self.width * self.height
    }

    /// Every sample is zero in every channel.
    pub open spec fn is_blank(self) -> bool {
        forall|i: int| 0 <= i < self.samples.len() ==> self.samples[i] == Sample::zero()
    }

    /// The channels `r` and `g` hold `flow_x` and `flow_y` in every sample:
    /// read as a velocity, the field is the same flow everywhere.
    pub open spec fn is_uniform_flow(self, flow_x: int, flow_y: int) -> bool {
        forall|i: int|
            0 <= i < self.samples.len() ==> (#[trigger] self.samples[i]).r == flow_x
                && self.samples[i].g == flow_y
    }

    /// Read as a velocity, the field is at rest everywhere.
    pub open spec fn is_still(self) -> bool {
        self.is_uniform_flow(0, 0)
    }

    /// The channel `r` holds `level` in every sample.
    pub open spec fn is_level(self, level: int) -> bool {
        forall|i: int| 0 <= i < self.samples.len() ==> (#[trigger] self.samples[i]).r == level
    }

    /// Two fields cover the same grid.
    pub open spec fn same_shape(self, other: FieldView) -> bool {
        self.width == other.width && self.height == other.height
    }

    /// `(x, y)` names a grid point.
    pub open spec fn contains(self, x: int, y: int) -> bool {
        0 <= x < self.width && 0 <= y < self.height
    }

    /// The sample at grid point `(x, y)`.
    pub open spec fn at(self, x: int, y: int) -> Sample
        recommends
            self.contains(x, y),
    {
        self.samples[y * self.width + x]
    }

    /// The sample at `(x, y)`, or at the nearest grid point if `(x, y)` lies
    /// outside the grid.
    pub open spec fn clamped(self, x: int, y: int) -> Sample {
        self.at(clamp_int(x, 0, self.width - 1), clamp_int(y, 0, self.height - 1))
    }

    /// The column of the sample stored at `index`.
    pub open spec fn column(self, index: int) -> int {
        index % (self.width as int)
    }

    /// The row of the sample stored at `index`.
    pub open spec fn row(self, index: int) -> int {
        index / (self.width as int)
    }

    /// The bytes of the field as an eight-bit RGBA image, row-major.
    pub open spec fn rgba8(self) -> Seq<u8> {
        Seq::new(4 * self.samples.len(), |k: int| self.samples[k / 4].encode()[k % 4])
    }

    /// The same grid holding other samples.
    pub open spec fn with_samples(self, samples: Seq<Sample>) -> FieldView {
        FieldView { width: self.width, height: self.height, layout: self.layout, samples }
    }
}

/// Row-major indexing is a bijection between grid points and indices.
pub proof fn lemma_row_major(x: int, y: int, width: int, height: int)
    requires
        0 <= x < width,
        0 <= y < height,
    ensures
        0 <= y * width <= y * width + x < width * height,
        (y * width + x) % width == x,
        (y * width + x) / width == y,
{
    assert(0 <= y * width && (y + 1) * width <= height * width && (y + 1) * width == y * width
        + width) by (nonlinear_arith)
        requires
            0 <= y < height,
            0 < width,
    ;
    assert(height * width == width * height) by (nonlinear_arith);
    vstd::arithmetic::div_mod::lemma_fundamental_div_mod_converse(y * width + x, width, y, x);
}

/// A grid within the size limits has at most `MAX_DIM * MAX_DIM` points.
pub proof fn lemma_grid_size(width: int, height: int)
    by (nonlinear_arith)
    requires
        0 <= width <= MAX_DIM,
        0 <= height <= MAX_DIM,
    ensures
        0 <= width * height <= 0x4000_0000,
{
}

/// Every index splits into a row and a column on the grid.
pub proof fn lemma_index_split(index: int, width: int, height: int)
    requires
        0 < width,
        0 <= index < width * height,
    ensures
        0 <= index % width < width,
        0 <= index / width < height,
        (index / width) * width + index % width == index,
{
    vstd::arithmetic::div_mod::lemma_fundamental_div_mod(index, width);
    let q = index / width;
    assert(q >= 0 && q < height) by (nonlinear_arith)
        requires
            0 < width,
            0 <= index < width * height,
            index == width * q + index % width,
            0 <= index % width < width,
    ;
    assert(width * q == q * width) by (nonlinear_arith);
}

/// In a uniform flow every read gives that flow, also a read that falls
/// outside the grid.
pub proof fn lemma_uniform_flow_reads(field: FieldView, flow_x: int, flow_y: int, x: int, y: int)
    requires
        field.wf(),
        field.is_uniform_flow(flow_x, flow_y),
    ensures
        field.clamped(x, y).r == flow_x,
        field.clamped(x, y).g == flow_y,
{
    lemma_row_major(
        clamp_int(x, 0, field.width - 1),
        clamp_int(y, 0, field.height - 1),
        field.width as int,
        field.height as int,
    );
}

/// In a level field every read gives the level, also a read that falls
/// outside the grid.
pub proof fn lemma_level_reads(field: FieldView, level: int, x: int, y: int)
    requires
        field.wf(),
        field.is_level(level),
    ensures
        field.clamped(x, y).r == level,
{
    lemma_row_major(
        clamp_int(x, 0, field.width - 1),
        clamp_int(y, 0, field.height - 1),
        field.width as int,
        field.height as int,
    );
}

/// Whether a field is a uniform flow, level or blank depends on its samples
/// alone.
pub proof fn lemma_same_samples(a: FieldView, b: FieldView)
    requires
        a.samples == b.samples,
    ensures
        forall|flow_x: int, flow_y: int|
            a.is_uniform_flow(flow_x, flow_y) == b.is_uniform_flow(flow_x, flow_y),
        a.is_still() == b.is_still(),
        forall|level: int| a.is_level(level) == b.is_level(level),
        a.is_blank() == b.is_blank(),
{
}

/// On the grid, a clamped read is a plain read.
pub proof fn lemma_clamped_on_grid(field: FieldView, x: int, y: int)
    requires
        field.contains(x, y),
    ensures
        field.clamped(x, y) == field.at(x, y),
{
}

/// A grid of samples.
pub struct Field {
    width: usize,
    height: usize,
    layout: ChannelLayout,
    samples: Vec<Sample>,
}

impl View for Field {
    type V = FieldView;

    closed spec fn view(&self) -> FieldView {
        FieldView {
            width: self.width as nat,
            height: self.height as nat,
            layout: self.layout,
            samples: self.samples@,
        }
    }
}

impl Field {
    #[verifier::type_invariant]
    spec fn inv(self) -> bool {
        self@.wf()
    }

    /// A zero-initialised field, or `None` if a dimension is zero or larger
    /// than [`MAX_DIM`].
    pub fn allocate(width: usize, height: usize, layout: ChannelLayout) -> (out: Option<Field>)
        ensures
            out.is_some() <==> 1 <= width <= MAX_DIM && 1 <= height <= MAX_DIM,
            out.is_some() ==> ({
                let f = out.unwrap()@;
                &&& f.wf()
                &&& f.width == width
                &&& f.height == height
                &&& f.layout == layout
                &&& f.is_blank()
            }),
    {
        if width == 0 || width > MAX_DIM || height == 0 || height > MAX_DIM {
            return None;
        }
        proof {
            lemma_grid_size(width as int, height as int);
        }
        let count: usize = width * height;
        let samples: Vec<Sample> = vec![Sample { r: 0, g: 0, b: 0, a: 0 }; count];
        Some(Field { width, height, layout, samples })
    }

    /// A field holding the given samples in row-major order, or `None` if a
    /// dimension is zero or larger than [`MAX_DIM`], or if the number of
    /// samples is not `width * height`.
    pub fn from_samples(
        width: usize,
        height: usize,
        layout: ChannelLayout,
        samples: Vec<Sample>,
    ) -> (out: Option<Field>)
        ensures
            out.is_some() <==> ({
                &&& 1 <= width <= MAX_DIM
                &&& 1 <= height <= MAX_DIM
                &&& samples@.len() == width * height
            }),
            out.is_some() ==> out.unwrap()@ == (FieldView {
                width: width as nat,
                height: height as nat,
                layout,
                samples: samples@,
            }),
    {
        if width == 0 || width > MAX_DIM || height == 0 || height > MAX_DIM {
            return None;
        }
        proof {
            lemma_grid_size(width as int, height as int);
        }
        if samples.len() != width * height {
            return None;
        }
        Some(Field { width, height, layout, samples })
    }

    /// Number of columns.
    pub fn width(&self) -> (w: usize)
        ensures
            w == self@.width,
            self@.wf(),
    {
        proof {
            use_type_invariant(self);
        }
        self.width
    }

    /// Number of rows.
    pub fn height(&self) -> (h: usize)
        ensures
            h == self@.height,
            self@.wf(),
    {
        proof {
            use_type_invariant(self);
        }
        self.height
    }

    /// Number of samples.
    pub fn len(&self) -> (n: usize)
        ensures
            n == self@.samples.len(),
            n == self@.width * self@.height,
            n <= MAX_DIM * MAX_DIM,
            self@.wf(),
    {
        proof {
            use_type_invariant(self);
            lemma_grid_size(self.width as int, self.height as int);
        }
        self.samples.len()
    }

    /// What the channels stand for.
    pub fn layout(&self) -> (l: ChannelLayout)
        ensures
            l == self@.layout,
    {
        self.layout
    }

    /// The samples in row-major order.
    pub fn samples(&self) -> (s: &Vec<Sample>)
        ensures
            s@ == self@.samples,
    {
        &self.samples
    }

    /// The sample stored at `index`, or `None` past the end.
    pub fn read_row_major(&self, index: usize) -> (out: Option<Sample>)
        ensures
            out == if index < self@.samples.len() {
                Some(self@.samples[index as int])
            } else {
                None
            },
    {
        if index < self.samples.len() {
            Some(self.samples[index])
        } else {
            None
        }
    }

    /// The sample at grid point `(x, y)`, or `None` outside the grid.
    pub fn get(&self, x: usize, y: usize) -> (out: Option<Sample>)
        ensures
            out == if self@.contains(x as int, y as int) {
                Some(self@.at(x as int, y as int))
            } else {
                None
            },
    {
        proof {
            use_type_invariant(self);
        }
        if x < self.width && y < self.height {
            proof {
                lemma_row_major(x as int, y as int, self.width as int, self.height as int);
                lemma_grid_size(self.width as int, self.height as int);
            }
            Some(self.samples[y * self.width + x])
        } else {
            None
        }
    }

    /// The sample at `(x, y)`, read from the nearest grid point when
    /// `(x, y)` lies outside the grid.
    pub fn sample_clamped(&self, x: i64, y: i64) -> (out: Sample)
        ensures
            out == self@.clamped(x as int, y as int),
    {
        proof {
            use_type_invariant(self);
        }
        let cx: usize = if x < 0 {
            0
        } else if x >= self.width as i64 {
            self.width - 1
        } else {
            x as usize
        };
        let cy: usize = if y < 0 {
            0
        } else if y >= self.height as i64 {
            self.height - 1
        } else {
            y as usize
        };
        proof {
            lemma_row_major(cx as int, cy as int, self.width as int, self.height as int);
            lemma_grid_size(self.width as int, self.height as int);
        }
        self.samples[cy * self.width + cx]
    }

    /// Overwrites the sample at `index`. An index past the end is rejected
    /// and leaves the field as it was.
    pub fn write_row_major(&mut self, index: usize, sample: Sample) -> (written: bool)
        ensures
            written <==> index < old(self)@.samples.len(),
            written ==> final(self)@ == old(self)@.with_samples(
                old(self)@.samples.update(index as int, sample),
            ),
            !written ==> final(self)@ == old(self)@,
    {
        proof {
            use_type_invariant(&*self);
        }
        if index < self.samples.len() {
            self.samples[index] = sample;
            true
        } else {
            false
        }
    }

    /// Overwrites the sample at grid point `(x, y)`. A point outside the
    /// grid is rejected and leaves the field as it was.
    pub fn set(&mut self, x: usize, y: usize, sample: Sample) -> (written: bool)
        ensures
            written <==> old(self)@.contains(x as int, y as int),
            written ==> final(self)@ == old(self)@.with_samples(
                old(self)@.samples.update(y * old(self)@.width + x, sample),
            ),
            !written ==> final(self)@ == old(self)@,
    {
        proof {
            use_type_invariant(&*self);
        }
        if x < self.width && y < self.height {
            proof {
                lemma_row_major(x as int, y as int, self.width as int, self.height as int);
                lemma_grid_size(self.width as int, self.height as int);
            }
            let index: usize = y * self.width + x;
            self.samples[index] = sample;
            true
        } else {
            false
        }
    }

    /// Overwrites every sample with `sample`.
    pub fn fill(&mut self, sample: Sample)
        ensures
            final(self)@ == old(self)@.with_samples(
                Seq::new(old(self)@.samples.len(), |i: int| sample),
            ),
    {
        proof {
            use_type_invariant(&*self);
        }
        let count: usize = self.samples.len();
        let mut i: usize = 0;
        while i < count
            invariant
                i <= count,
                count == self.samples@.len(),
                self.width == old(self).width,
                self.height == old(self).height,
                self.layout == old(self).layout,
                self@.wf(),
                forall|j: int| 0 <= j < i ==> self.samples@[j] == sample,
            decreases count - i,
        {
            self.samples[i] = sample;
            i += 1;
        }
        assert(self.samples@ =~= Seq::new(old(self)@.samples.len(), |i: int| sample));
    }

    /// The field as an eight-bit RGBA image: four bytes per sample, row-major,
    /// every channel encoded as with [`Sample::to_unorm8`].
    pub fn to_rgba8(&self) -> (bytes: Vec<u8>)
        ensures
            bytes@ == self@.rgba8(),
    {
        proof {
            use_type_invariant(self);
        }
        let count: usize = self.samples.len();
        let mut bytes: Vec<u8> = Vec::new();
        let mut i: usize = 0;
        while i < count
            invariant
                i <= count,
                count == self.samples@.len(),
                bytes@.len() == 4 * i,
                forall|k: int|
                    0 <= k < 4 * i ==> bytes@[k] == #[trigger] self.samples@[k / 4].encode()[k % 4],
            decreases count - i,
        {
            let texel = self.samples[i].to_unorm8();
            bytes.push(texel[0]);
            bytes.push(texel[1]);
            bytes.push(texel[2]);
            bytes.push(texel[3]);
            i += 1;
        }
        assert(bytes@ =~= self@.rgba8());
        bytes
    }
}

} // verus!
