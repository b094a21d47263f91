//! One frame: the commands that are recorded and submitted.
//!
//! A frame clears the target and issues a single indexed, instanced draw of
//! the mesh, one instance per rectangle.

use crate::error::FrameError;
use crate::geometry::GeometryStore;
use crate::instance::InstanceStore;
use vstd::prelude::*;

verus! {

/// A colour with four channels, each a double-precision bit pattern.
#[derive(Clone, Copy, Debug, PartialEq, Eq, Structural)]
pub struct Color {
    pub r: u64,
    pub g: u64,
    pub b: u64,
    pub a: u64,
}

/// The background: red 0.39, green 0.58, blue 0.93, opaque.
pub open spec fn background() -> Color {
    Color {
        r: 0x3FD8_F5C2_8F5C_28F6,
        g: 0x3FE2_8F5C_28F5_C28F,
        b: 0x3FED_C28F_5C28_F5C3,
        a: 0x3FF0_0000_0000_0000,
    }
}

/// A buffer that a frame reads vertices from.
#[derive(Clone, Copy, Debug, PartialEq, Eq, Structural)]
pub enum VertexSource {
    /// The corners of the unit quad.
    Mesh,
    /// The instance table.
    Instances,
}

/// One step of a frame.
#[derive(Clone, Copy, Debug, PartialEq, Eq, Structural)]
pub enum Command {
    /// Begins the render pass; the target is cleared to `clear_color` and
    /// what is drawn is stored.
    BeginRenderPass { clear_color: Color },
    SetPipeline,
    SetBindGroup { index: u32 },
    SetVertexBuffer { slot: u32, source: VertexSource, offset: u64 },
    SetIndexBuffer { offset: u64 },
    /// Draws the indices from `first_index` up to `end_index` once for every
    /// instance from `first_instance` up to `end_instance`.
    DrawIndexed {
        first_index: u32,
        end_index: u32,
        base_vertex: i32,
        first_instance: u32,
        end_instance: u32,
    },
    EndRenderPass,
    /// Hands the recorded commands to the queue.
    Submit,
}

/// The frame that draws `instance_count` instances of a mesh of
/// `index_count` indices.
pub open spec fn frame_commands(index_count: u32, instance_count: u32) -> Seq<Command> {
    seq![
        Command::BeginRenderPass { clear_color: background() },
        Command::SetPipeline,
        Command::SetBindGroup { index: 0 },
        Command::SetVertexBuffer { slot: 0, source: VertexSource::Mesh, offset: 0 },
        Command::SetVertexBuffer { slot: 1, source: VertexSource::Instances, offset: 0 },
        Command::SetIndexBuffer { offset: 0 },
        Command::DrawIndexed {
            first_index: 0,
            end_index: index_count,
            base_vertex: 0,
            first_instance: 0,
            end_instance: instance_count,
        },
        Command::EndRenderPass,
        Command::Submit,
    ]
}

/// Number of instances that the draw calls among `commands` draw in all.
pub open spec fn instances_drawn(commands: Seq<Command>) -> int
    decreases commands.len(),
{
    if commands.len() == 0 {
        0
    } else {
        instances_drawn(commands.drop_last()) + match commands.last() {
            Command::DrawIndexed { first_instance, end_instance, .. } => end_instance
                - first_instance,
            _ => 0,
        }
    }
}

/// Number of draw calls among `commands`.
pub open spec fn draw_calls(commands: Seq<Command>) -> int
    decreases commands.len(),
{
    if commands.len() == 0 {
        0
    } else {
        draw_calls(commands.drop_last()) + if commands.last() is DrawIndexed {
            1int
        } else {
            0int
        }
    }
}

/// Records the frame: clear, bind the pipeline, the bind group, the mesh at
/// slot 0, the instances at slot 1 and the indices, then one draw over all
/// indices and all instances, and submit.
pub fn record_frame(geometry: &GeometryStore, instances: &InstanceStore) -> (commands: Vec<
    Command,
>)
    ensures
        commands@ == frame_commands(6, instances@.len() as u32),
        instances@.len() <= u32::MAX,
{
    let index_count = geometry.index_count();
    let instance_count = instances.instance_count();
    let mut commands: Vec<Command> = Vec::new();
    commands.push(
        Command::BeginRenderPass {
            clear_color: Color {
                r: 0x3FD8_F5C2_8F5C_28F6,
                g: 0x3FE2_8F5C_28F5_C28F,
                b: 0x3FED_C28F_5C28_F5C3,
                a: 0x3FF0_0000_0000_0000,
            },
        },
    );
    commands.push(Command::SetPipeline);
    commands.push(Command::SetBindGroup { index: 0 });
    commands.push(Command::SetVertexBuffer { slot: 0, source: VertexSource::Mesh, offset: 0 });
    commands.push(
        Command::SetVertexBuffer { slot: 1, source: VertexSource::Instances, offset: 0 },
    );
    commands.push(Command::SetIndexBuffer { offset: 0 });
    commands.push(
        Command::DrawIndexed {
            first_index: 0,
            end_index: index_count,
            base_vertex: 0,
            first_instance: 0,
            end_instance: instance_count,
        },
    );
    commands.push(Command::EndRenderPass);
    commands.push(Command::Submit);
    assert(commands@ =~= frame_commands(6, instances@.len() as u32));
    commands
}

/// Draws one frame into the image that was acquired from the swap-surface.
///
/// Fails with [`FrameError::SurfaceLost`] exactly when no image could be
/// acquired; nothing is recorded then.
pub fn render(acquired: bool, geometry: &GeometryStore, instances: &InstanceStore) -> (result:
    Result<Vec<Command>, FrameError>)
    ensures
        result is Ok <==> acquired,
        result matches Ok(commands) ==> commands@ == frame_commands(6, instances@.len() as u32),
        result matches Err(e) ==> e == FrameError::SurfaceLost,
{
    if acquired {
        Ok(record_frame(geometry, instances))
    } else {
        Err(FrameError::SurfaceLost)
    }
}

/// A frame holds exactly one draw call; it spans all indices of the mesh,
/// and its instance range starts at 0 and is as long as the instance table.
pub proof fn lemma_frame_draws_every_instance_once(index_count: u32, instance_count: u32)
    ensures
        draw_calls(frame_commands(index_count, instance_count)) == 1,
        instances_drawn(frame_commands(index_count, instance_count)) == instance_count,
        frame_commands(index_count, instance_count)[6] == (Command::DrawIndexed {
            first_index: 0,
            end_index: index_count,
            base_vertex: 0,
            first_instance: 0,
            end_instance: instance_count,
        }),
{
    let frame = frame_commands(index_count, instance_count);
    reveal_with_fuel(draw_calls, 10);
    reveal_with_fuel(instances_drawn, 10);
    let f8 = frame.drop_last();
    let f7 = f8.drop_last();
    let f6 = f7.drop_last();
    let f5 = f6.drop_last();
    let f4 = f5.drop_last();
    let f3 = f4.drop_last();
    let f2 = f3.drop_last();
    let f1 = f2.drop_last();
    let f0 = f1.drop_last();
    assert(f0.len() == 0);
    assert(f1.last() == frame[0]);
    assert(f2.last() == frame[1]);
    assert(f3.last() == frame[2]);
    assert(f4.last() == frame[3]);
    assert(f5.last() == frame[4]);
    assert(f6.last() == frame[5]);
    assert(f7.last() == frame[6]);
    assert(f8.last() == frame[7]);
    assert(frame.last() == frame[8]);
}

} // verus!
