//! How the pipeline reads a vertex buffer: stride, stepping and attributes.
//!
//! A buffer holds records; a record is a run of float fields with no padding
//! between them. A layout names, for every field, its byte offset in the
//! record, its format and the shader input it feeds.

use vstd::prelude::*;

verus! {

/// Format of one attribute: one to four 32-bit floats.
#[derive(Clone, Copy, Debug, PartialEq, Eq, Structural)]
pub enum VertexFormat {
    Float,
    Float2,
    Float3,
    Float4,
}

impl VertexFormat {
    /// Number of 32-bit words in a value of this format.
    pub open spec fn spec_words(&self) -> nat {
        match self {
            VertexFormat::Float => 1,
            VertexFormat::Float2 => 2,
            VertexFormat::Float3 => 3,
            VertexFormat::Float4 => 4,
        }
    }

    /// Number of bytes in a value of this format.
    pub open spec fn spec_size(&self) -> nat {
        4 * self.spec_words()
    }

    /// Number of bytes in a value of this format.
    pub fn size(&self) -> (bytes: u64)
        ensures
            bytes == self.spec_size(),
    {
        match self {
            VertexFormat::Float => 4,
            VertexFormat::Float2 => 8,
            VertexFormat::Float3 => 12,
            VertexFormat::Float4 => 16,
        }
    }
}

/// Whether the buffer advances once per vertex or once per instance.
#[derive(Clone, Copy, Debug, PartialEq, Eq, Structural)]
pub enum InputStepMode {
    Vertex,
    Instance,
}

/// One field of a record as the pipeline sees it.
#[derive(Clone, Copy, Debug, PartialEq, Eq, Structural)]
pub struct VertexAttribute {
    /// Byte offset of the field from the start of the record.
    pub offset: u64,
    pub format: VertexFormat,
    /// The shader input that the field feeds.
    pub shader_location: u32,
}

/// Number of bytes that the first `count` of `formats` take when packed one
/// after the other.
pub open spec fn packed_size(formats: Seq<VertexFormat>, count: int) -> nat
    decreases count,
{
    if count <= 0 {
        0
    } else {
        packed_size(formats, count - 1) + formats[count - 1].spec_size()
    }
}

/// The attributes of a record whose fields have the given formats, packed
/// without padding, feeding consecutive shader inputs from `first_location`.
pub open spec fn packed_attributes(first_location: u32, formats: Seq<VertexFormat>) -> Seq<
    VertexAttribute,
> {
    Seq::new(
        formats.len(),
        |i: int|
            VertexAttribute {
                offset: packed_size(formats, i) as u64,
                format: formats[i],
                shader_location: (first_location + i) as u32,
            },
    )
}

/// Packed fields take at most 16 bytes each, and a longer run never takes
/// less than a shorter one.
pub proof fn lemma_packed_size_bounds(formats: Seq<VertexFormat>, shorter: int, longer: int)
    requires
        0 <= shorter <= longer,
    ensures
        packed_size(formats, shorter) <= packed_size(formats, longer),
        4 * longer <= packed_size(formats, longer) <= 16 * longer,
    decreases longer,
{
    if longer > 0 {
        if shorter < longer {
            lemma_packed_size_bounds(formats, shorter, longer - 1);
        } else {
            lemma_packed_size_bounds(formats, shorter - 1, longer - 1);
        }
    }
}

/// How the pipeline reads one vertex buffer.
#[derive(Debug, PartialEq, Eq)]
pub struct VertexBufferLayout {
    /// Bytes from one record to the next.
    pub stride: u64,
    pub step_mode: InputStepMode,
    pub attributes: Vec<VertexAttribute>,
}

impl VertexBufferLayout {
    /// Whether this is the layout of tightly packed records whose fields
    /// have the given formats: the stride is the size of one record, and the
    /// attributes lie one after the other at consecutive shader inputs.
    pub open spec fn matches_record(
        &self,
        first_location: u32,
        step_mode: InputStepMode,
        formats: Seq<VertexFormat>,
    ) -> bool {
        &&& self.stride == packed_size(formats, formats.len() as int)
        &&& self.step_mode == step_mode
        &&& self.attributes@ == packed_attributes(first_location, formats)
    }

    /// The layout of tightly packed records whose fields have the given
    /// formats, the first field feeding shader input `first_location`.
    ///
    /// The shader inputs are numbered with 32 bits, so the last field's
    /// input must not pass `u32::MAX`.
    pub fn packed(first_location: u32, step_mode: InputStepMode, formats: &Vec<VertexFormat>) -> (layout:
        VertexBufferLayout)
        requires
            first_location + formats.len() <= u32::MAX + 1,
        ensures
            layout.matches_record(first_location, step_mode, formats@),
    {
        let mut attributes: Vec<VertexAttribute> = Vec::new();
        let mut offset: u64 = 0;
        let mut i: usize = 0;
        while i < formats.len()
            invariant
                i <= formats.len(),
                first_location + formats.len() <= u32::MAX + 1,
                offset == packed_size(formats@, i as int),
                attributes@.len() == i,
                forall|j: int|
                    0 <= j < i ==> attributes@[j] == packed_attributes(first_location, formats@)[j],
            decreases formats.len() - i,
        {
            proof {
                lemma_packed_size_bounds(formats@, i as int, i as int + 1);
            }
            let format = formats[i];
            let shader_location = first_location + (i as u32);
            attributes.push(VertexAttribute { offset, format, shader_location });
            offset = offset + format.size();
            i += 1;
        }
        assert(attributes@ =~= packed_attributes(first_location, formats@));
        VertexBufferLayout { stride: offset, step_mode, attributes }
    }
}

/// In a packed layout every attribute starts where the one before it ends,
/// the last one ends at the stride, and the shader inputs count up by one.
pub proof fn lemma_packed_layout_is_tight(
    layout: VertexBufferLayout,
    first_location: u32,
    step_mode: InputStepMode,
    formats: Seq<VertexFormat>,
    i: int,
)
    requires
        layout.matches_record(first_location, step_mode, formats),
        first_location + formats.len() <= u32::MAX + 1,
        0 <= i < formats.len(),
    ensures
        layout.attributes@.len() == formats.len(),
        layout.attributes@[i].format == formats[i],
        layout.attributes@[i].shader_location == first_location + i,
        i == 0 ==> layout.attributes@[i].offset == 0,
        i + 1 < formats.len() ==> layout.attributes@[i + 1].offset == layout.attributes@[i].offset
            + formats[i].spec_size(),
        i + 1 == formats.len() ==> layout.stride == layout.attributes@[i].offset
            + formats[i].spec_size(),
{
    lemma_packed_size_bounds(formats, i, i + 1);
    lemma_packed_size_bounds(formats, i + 1, formats.len() as int);
    assert(packed_size(formats, i + 1) == packed_size(formats, i) + formats[i].spec_size());
}

} // verus!
