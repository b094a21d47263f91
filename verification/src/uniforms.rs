//! The uniform record: a few values that every vertex sees.
//!
//! The record is uploaded once and bound at slot 0 for the vertex stage. Its
//! contents can be replaced as a whole.

use crate::float_bits::{FORTY, FOUR_HUNDRED_EIGHTY, SIX_HUNDRED_FORTY, TWENTY};
use crate::memory::{words_as_bytes, words_image, BufferData, BufferUsage};
use vstd::endian::endianness;
use vstd::prelude::*;

verus! {

/// Size of the uniform record in bytes.
pub const UNIFORM_SIZE: u64 = 16;

/// The slot that the uniform buffer is bound at.
pub const UNIFORM_BINDING: u32 = 0;

/// The uniform record: the size of one grid cell and of the window, both in
/// pixels, width first. Every field is a single-precision bit pattern.
#[derive(Clone, Copy, Debug, PartialEq, Eq)]
pub struct Uniforms {
    pub font_size: (u32, u32),
    pub window_size: (u32, u32),
}

impl Uniforms {
    /// The record as words, in field order.
    pub open spec fn words(self) -> Seq<u32> {
        seq![self.font_size.0, self.font_size.1, self.window_size.0, self.window_size.1]
    }

    /// The record of the fixed scene: cells of 20 by 40 pixels in a window of
    /// 640 by 480.
    pub open spec fn spec_fixed() -> Uniforms {
        Uniforms {
            font_size: (TWENTY, FORTY),
            window_size: (SIX_HUNDRED_FORTY, FOUR_HUNDRED_EIGHTY),
        }
    }

    /// The record of the fixed scene: cells of 20 by 40 pixels in a window of
    /// 640 by 480.
    #[verifier::when_used_as_spec(spec_fixed)]
    pub fn fixed() -> (uniforms: Uniforms)
        ensures
            uniforms == Uniforms::spec_fixed(),
    {
        Uniforms {
            font_size: (TWENTY, FORTY),
            window_size: (SIX_HUNDRED_FORTY, FOUR_HUNDRED_EIGHTY),
        }
    }
}

/// The shader stages that can see a binding.
#[derive(Clone, Copy, Debug, PartialEq, Eq, Structural)]
pub struct ShaderStages {
    pub vertex: bool,
    pub fragment: bool,
    pub compute: bool,
}

/// What kind of resource a binding holds.
#[derive(Clone, Copy, Debug, PartialEq, Eq, Structural)]
pub enum BindingType {
    UniformBuffer { dynamic: bool },
    StorageBuffer { dynamic: bool, readonly: bool },
    Sampler,
}

/// One slot of a bind-group layout.
#[derive(Clone, Copy, Debug, PartialEq, Eq, Structural)]
pub struct BindGroupLayoutEntry {
    pub binding: u32,
    pub visibility: ShaderStages,
    pub ty: BindingType,
}

/// A byte range of a buffer, bound at a slot.
#[derive(Clone, Copy, Debug, PartialEq, Eq, Structural)]
pub struct BufferBinding {
    pub binding: u32,
    pub start: u64,
    pub end: u64,
}

/// The layout slot of the uniform buffer: slot 0, a uniform buffer without
/// dynamic offset, visible to the vertex stage only.
pub open spec fn uniform_layout_entry() -> BindGroupLayoutEntry {
    BindGroupLayoutEntry {
        binding: UNIFORM_BINDING,
        visibility: ShaderStages { vertex: true, fragment: false, compute: false },
        ty: BindingType::UniformBuffer { dynamic: false },
    }
}

/// The device-resident uniform record.
#[derive(Debug, PartialEq, Eq)]
pub struct FrameUniforms {
    uniforms: Uniforms,
}

impl View for FrameUniforms {
    type V = Uniforms;

    closed spec fn view(&self) -> Uniforms {
        self.uniforms
    }
}

impl FrameUniforms {
    /// Holds `uniforms`.
    pub fn new(uniforms: Uniforms) -> (store: FrameUniforms)
        ensures
            store@ == uniforms,
    {
        FrameUniforms { uniforms }
    }

    /// The record that is bound.
    pub fn uniforms(&self) -> (uniforms: Uniforms)
        ensures
            uniforms == self@,
    {
        self.uniforms
    }

    /// Replaces the whole record; the new bytes have to be uploaded again.
    pub fn replace(&mut self, uniforms: Uniforms)
        ensures
            final(self)@ == uniforms,
    {
        self.uniforms = uniforms;
    }

    /// What the uniform buffer holds: the memory image of the record, 16
    /// bytes, for use as uniforms.
    pub fn buffer(&self) -> (data: BufferData)
        ensures
            data.usage == BufferUsage::Uniform,
            data.bytes@ == words_image(endianness(), self@.words()),
            data.bytes@.len() == UNIFORM_SIZE,
    {
        let mut words: Vec<u32> = Vec::new();
        words.push(self.uniforms.font_size.0);
        words.push(self.uniforms.font_size.1);
        words.push(self.uniforms.window_size.0);
        words.push(self.uniforms.window_size.1);
        assert(words@ =~= self@.words());
        BufferData { usage: BufferUsage::Uniform, bytes: words_as_bytes(words.as_slice()) }
    }

    /// The bind-group layout of the pipeline: the uniform buffer's slot and
    /// nothing else.
    pub fn layout_entries(&self) -> (entries: Vec<BindGroupLayoutEntry>)
        ensures
            entries@ == seq![uniform_layout_entry()],
    {
        let mut entries: Vec<BindGroupLayoutEntry> = Vec::new();
        entries.push(
            BindGroupLayoutEntry {
                binding: UNIFORM_BINDING,
                visibility: ShaderStages { vertex: true, fragment: false, compute: false },
                ty: BindingType::UniformBuffer { dynamic: false },
            },
        );
        assert(entries@ =~= seq![uniform_layout_entry()]);
        entries
    }

    /// What the bind group binds: the whole uniform buffer at slot 0.
    pub fn binding(&self) -> (binding: BufferBinding)
        ensures
            binding == (BufferBinding { binding: UNIFORM_BINDING, start: 0, end: UNIFORM_SIZE }),
    {
        BufferBinding { binding: UNIFORM_BINDING, start: 0, end: UNIFORM_SIZE }
    }
}

} // verus!
