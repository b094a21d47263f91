//! The rectangles to draw: one instance record per rectangle.
//!
//! The table is fixed when the program starts and uploaded once. Each field
//! is a single-precision bit pattern, carried as a 32-bit word.

use crate::float_bits::{FIVE, ONE, ONE_AND_A_TENTH, SIX, THREE, TWO, ZERO};
use crate::layout::{InputStepMode, VertexBufferLayout, VertexFormat};
use crate::memory::{words_as_bytes, words_image, BufferData, BufferUsage};
use vstd::endian::endianness;
use vstd::prelude::*;

verus! {

/// Which fields of an instance record reach the device.
#[derive(Clone, Copy, Debug, PartialEq, Eq, Structural)]
pub enum InstanceShape {
    /// Position and dimensions only: 4 words per record.
    PositionSize,
    /// Position, dimensions and colour: 7 words per record.
    PositionSizeColor,
}

impl InstanceShape {
    /// Number of 32-bit words in one uploaded record.
    pub open spec fn spec_record_words(&self) -> nat {
        match self {
            InstanceShape::PositionSize => 4,
            InstanceShape::PositionSizeColor => 7,
        }
    }

    /// The formats of the uploaded fields, in order.
    pub open spec fn spec_formats(&self) -> Seq<VertexFormat> {
        match self {
            InstanceShape::PositionSize => seq![VertexFormat::Float2, VertexFormat::Float2],
            InstanceShape::PositionSizeColor => seq![
                VertexFormat::Float2,
                VertexFormat::Float2,
                VertexFormat::Float3,
            ],
        }
    }

    /// The formats of the uploaded fields, in order.
    pub fn formats(&self) -> (formats: Vec<VertexFormat>)
        ensures
            formats@ == self.spec_formats(),
    {
        let mut formats: Vec<VertexFormat> = Vec::new();
        formats.push(VertexFormat::Float2);
        formats.push(VertexFormat::Float2);
        match self {
            InstanceShape::PositionSize => {},
            InstanceShape::PositionSizeColor => {
                formats.push(VertexFormat::Float3);
            },
        }
        assert(formats@ =~= self.spec_formats());
        formats
    }
}

/// One rectangle: where its top-left corner lies, how large it is, and its
/// colour. Every field is a single-precision bit pattern.
#[derive(Clone, Copy, Debug, PartialEq, Eq)]
pub struct Instance {
    pub position: (u32, u32),
    pub dimensions: (u32, u32),
    pub color: (u32, u32, u32),
}

impl Instance {
    /// The rectangle at `(x, y)` of size `width` by `height` in the colour
    /// `(r, g, b)`.
    pub fn new(x: u32, y: u32, width: u32, height: u32, r: u32, g: u32, b: u32) -> (instance:
        Instance)
        ensures
            instance.position == (x, y),
            instance.dimensions == (width, height),
            instance.color == (r, g, b),
    {
        Instance { position: (x, y), dimensions: (width, height), color: (r, g, b) }
    }

    /// Word `k` of the record, in field order.
    pub open spec fn word(self, k: int) -> u32 {
        if k == 0 {
            self.position.0
        } else if k == 1 {
            self.position.1
        } else if k == 2 {
            self.dimensions.0
        } else if k == 3 {
            self.dimensions.1
        } else if k == 4 {
            self.color.0
        } else if k == 5 {
            self.color.1
        } else {
            self.color.2
        }
    }
}

/// The words of a run of instance records, record after record, each cut to
/// the fields that `shape` uploads.
pub open spec fn instance_words(table: Seq<Instance>, shape: InstanceShape) -> Seq<u32> {
    match shape {
        InstanceShape::PositionSize => Seq::new(4 * table.len(), |i: int| table[i / 4].word(i % 4)),
        InstanceShape::PositionSizeColor => Seq::new(
            7 * table.len(),
            |i: int| table[i / 7].word(i % 7),
        ),
    }
}

/// Lays a run of instance records out as words, record after record.
pub fn flatten_instances(table: &Vec<Instance>, shape: InstanceShape) -> (words: Vec<u32>)
    ensures
        words@ == instance_words(table@, shape),
        words@.len() == shape.spec_record_words() * table@.len(),
{
    let mut words: Vec<u32> = Vec::new();
    let mut i: usize = 0;
    while i < table.len()
        invariant
            i <= table.len(),
            shape == InstanceShape::PositionSize ==> words@.len() == 4 * i,
            shape == InstanceShape::PositionSizeColor ==> words@.len() == 7 * i,
            forall|j: int|
                0 <= j < words@.len() ==> words@[j] == instance_words(table@, shape)[j],
        decreases table.len() - i,
    {
        let instance = table[i];
        words.push(instance.position.0);
        words.push(instance.position.1);
        words.push(instance.dimensions.0);
        words.push(instance.dimensions.1);
        match shape {
            InstanceShape::PositionSize => {},
            InstanceShape::PositionSizeColor => {
                words.push(instance.color.0);
                words.push(instance.color.1);
                words.push(instance.color.2);
            },
        }
        i += 1;
    }
    assert(words@ =~= instance_words(table@, shape));
    assert(words@.len() == shape.spec_record_words() * table@.len()) by {
        match shape {
            InstanceShape::PositionSize => {},
            InstanceShape::PositionSizeColor => {},
        }
    }
    words
}

/// The fixed scene: six rectangles on a grid, spelling out two letters.
///
/// ```text
/// _________
/// _1_3_444_
/// _123__5__
/// _1_3_666_
/// _________
/// ```
pub open spec fn fixed_table() -> Seq<Instance> {
    seq![
        Instance { position: (ONE, ONE), dimensions: (ONE, THREE), color: (ONE, ZERO, ZERO) },
        Instance { position: (TWO, TWO), dimensions: (ONE, ONE), color: (ONE, ONE, ZERO) },
        Instance { position: (THREE, ONE), dimensions: (ONE, THREE), color: (ZERO, ONE, ZERO) },
        Instance {
            position: (FIVE, ONE),
            dimensions: (THREE, ONE),
            color: (ZERO, ONE, ONE_AND_A_TENTH),
        },
        Instance { position: (SIX, TWO), dimensions: (ONE, ONE), color: (ZERO, ZERO, ONE) },
        Instance { position: (FIVE, THREE), dimensions: (THREE, ONE), color: (ONE, ZERO, ONE) },
    ]
}

/// Builds the fixed scene.
pub fn instance_table() -> (table: Vec<Instance>)
    ensures
        table@ == fixed_table(),
        table@.len() == 6,
{
    let mut table: Vec<Instance> = Vec::new();
    table.push(Instance::new(ONE, ONE, ONE, THREE, ONE, ZERO, ZERO));
    table.push(Instance::new(TWO, TWO, ONE, ONE, ONE, ONE, ZERO));
    table.push(Instance::new(THREE, ONE, ONE, THREE, ZERO, ONE, ZERO));
    table.push(Instance::new(FIVE, ONE, THREE, ONE, ZERO, ONE, ONE_AND_A_TENTH));
    table.push(Instance::new(SIX, TWO, ONE, ONE, ZERO, ZERO, ONE));
    table.push(Instance::new(FIVE, THREE, THREE, ONE, ONE, ZERO, ONE));
    assert(table@ =~= fixed_table());
    table
}

/// The device-resident instance table. It is filled once and never changes;
/// it holds at most `u32::MAX` records, so that one draw call can span them.
#[derive(Debug)]
pub struct InstanceStore {
    instances: Vec<Instance>,
    shape: InstanceShape,
}

impl View for InstanceStore {
    type V = Seq<Instance>;

    closed spec fn view(&self) -> Seq<Instance> {
        self.instances@
    }
}

impl InstanceStore {
    #[verifier::type_invariant]
    spec fn fits_one_draw(&self) -> bool {
        self.instances@.len() <= u32::MAX
    }

    /// The shape that the records are uploaded in.
    pub closed spec fn spec_shape(&self) -> InstanceShape {
        self.shape
    }

    /// Takes the table as it is. `None` exactly when it holds more than
    /// `u32::MAX` records.
    pub fn new(table: Vec<Instance>, shape: InstanceShape) -> (store: Option<InstanceStore>)
        ensures
            store is Some <==> table@.len() <= u32::MAX,
            store matches Some(s) ==> s@ == table@ && s.spec_shape() == shape,
    {
        if table.len() > 0xFFFF_FFFF {
            None
        } else {
            Some(InstanceStore { instances: table, shape })
        }
    }

    /// The store of the fixed scene, colours included.
    pub fn fixed() -> (store: InstanceStore)
        ensures
            store@ == fixed_table(),
            store.spec_shape() == InstanceShape::PositionSizeColor,
    {
        InstanceStore { instances: instance_table(), shape: InstanceShape::PositionSizeColor }
    }

    /// The records, in table order.
    pub fn instances(&self) -> (instances: &Vec<Instance>)
        ensures
            instances@ == self@,
    {
        &self.instances
    }

    /// The shape that the records are uploaded in.
    pub fn shape(&self) -> (shape: InstanceShape)
        ensures
            shape == self.spec_shape(),
    {
        self.shape
    }

    /// Number of rectangles, which is the number of instances of one draw.
    pub fn instance_count(&self) -> (count: u32)
        ensures
            count == self@.len(),
    {
        proof {
            use_type_invariant(self);
        }
        self.instances.len() as u32
    }

    /// What the instance buffer holds: the memory image of the records,
    /// unchanged and in table order, one stride per record, for use as
    /// vertices.
    pub fn buffer(&self) -> (data: BufferData)
        ensures
            data.usage == BufferUsage::Vertex,
            data.bytes@ == words_image(endianness(), instance_words(self@, self.spec_shape())),
            data.bytes@.len() == 4 * self.spec_shape().spec_record_words() * self@.len(),
    {
        let words = flatten_instances(&self.instances, self.shape);
        assert(4 * (self.shape.spec_record_words() * self.instances@.len()) == 4
            * self.shape.spec_record_words() * self.instances@.len()) by (nonlinear_arith);
        BufferData { usage: BufferUsage::Vertex, bytes: words_as_bytes(words.as_slice()) }
    }

    /// How the pipeline reads the instance buffer: one record per instance,
    /// the fields feeding consecutive shader inputs from 1. The stride is
    /// the size of one uploaded record.
    pub fn layout(&self) -> (layout: VertexBufferLayout)
        ensures
            layout.matches_record(1, InputStepMode::Instance, self.spec_shape().spec_formats()),
            layout.stride == 4 * self.spec_shape().spec_record_words(),
            layout.attributes@.len() == self.spec_shape().spec_formats().len(),
    {
        instance_layout(self.shape)
    }
}

/// The layout of an instance buffer whose records have the given shape: 16
/// bytes per record without colour, 28 with it.
pub fn instance_layout(shape: InstanceShape) -> (layout: VertexBufferLayout)
    ensures
        layout.matches_record(1, InputStepMode::Instance, shape.spec_formats()),
        layout.stride == 4 * shape.spec_record_words(),
        layout.attributes@.len() == shape.spec_formats().len(),
{
    proof {
        reveal_with_fuel(crate::layout::packed_size, 4);
    }
    let formats = shape.formats();
    VertexBufferLayout::packed(1, InputStepMode::Instance, &formats)
}

} // verus!
