//! The render stage's data: the fixed unit-quad mesh, the vertex-slot
//! wiring, and the one indexed, instanced draw issued per frame.

use vstd::prelude::*;
use crate::buffers::{is_particle_channel, spec_usage_of, BufferId};

verus! {

/// One corner of the quad mesh. Coordinates are stored doubled, so the
/// quarter-unit corners `(±1/2, ±1/2)` are the exact integers `(±1, ±1)`;
/// the shell halves them when it fills the device vertex buffer.
#[derive(Clone, Copy, PartialEq, Eq, Structural, Debug)]
pub struct QuadVertex {
    /// Twice the x coordinate.
    pub x_doubled: i32,
    /// Twice the y coordinate.
    pub y_doubled: i32,
}

/// The quad's four corners, counter-clockwise from the lower left:
/// `(−1/2, −1/2)`, `(1/2, −1/2)`, `(1/2, 1/2)`, `(−1/2, 1/2)`.
pub fn quad_vertices() -> (vertices: Vec<QuadVertex>)
    ensures
        vertices@ =~= seq![
            QuadVertex { x_doubled: -1i32, y_doubled: -1i32 },
            QuadVertex { x_doubled: 1i32, y_doubled: -1i32 },
            QuadVertex { x_doubled: 1i32, y_doubled: 1i32 },
            QuadVertex { x_doubled: -1i32, y_doubled: 1i32 },
        ],
{
    let mut vertices: Vec<QuadVertex> = Vec::new();
    vertices.push(QuadVertex { x_doubled: -1i32, y_doubled: -1i32 });
    vertices.push(QuadVertex { x_doubled: 1i32, y_doubled: -1i32 });
    vertices.push(QuadVertex { x_doubled: 1i32, y_doubled: 1i32 });
    vertices.push(QuadVertex { x_doubled: -1i32, y_doubled: 1i32 });
    vertices
}

/// The quad's index list: six 16-bit indices forming the two triangles
/// `(0, 1, 2)` and `(0, 2, 3)`, every index naming one of the four corners.
pub fn quad_indices() -> (indices: Vec<u16>)
    ensures
        indices@ =~= seq![0u16, 1u16, 2u16, 0u16, 2u16, 3u16],
        forall|k: int| 0 <= k < indices@.len() ==> #[trigger] indices@[k] < 4,
{
    let mut indices: Vec<u16> = Vec::new();
    indices.push(0);
    indices.push(1);
    indices.push(2);
    indices.push(0);
    indices.push(2);
    indices.push(3);
    indices
}

/// What a render-stage vertex slot is fed from.
#[derive(Clone, Copy, PartialEq, Eq, Structural, Debug)]
pub enum SlotSource {
    /// The fixed quad mesh, advancing per vertex.
    QuadMesh,
    /// A particle channel array, advancing per instance.
    Instances(BufferId),
}

/// One vertex-slot binding of the render pass.
#[derive(Clone, Copy, PartialEq, Eq, Structural, Debug)]
pub struct SlotBinding {
    /// The slot index the render pass binds at.
    pub slot: u32,
    /// What feeds the slot.
    pub source: SlotSource,
}

/// The render pass's vertex-slot wiring: slot 0 carries the quad mesh, and
/// slots 1 through 4 carry the four particle channels as per-instance
/// streams in channel order.
pub open spec fn spec_render_slots() -> Seq<SlotBinding> {
    seq![
        SlotBinding { slot: 0, source: SlotSource::QuadMesh },
        SlotBinding { slot: 1, source: SlotSource::Instances(BufferId::PositionX) },
        SlotBinding { slot: 2, source: SlotSource::Instances(BufferId::PositionY) },
        SlotBinding { slot: 3, source: SlotSource::Instances(BufferId::VelocityX) },
        SlotBinding { slot: 4, source: SlotSource::Instances(BufferId::VelocityY) },
    ]
}

/// Shared-allocation law of the render stage: every per-instance slot
/// sources a particle channel — storage the compute stages write in place,
/// not a copy — and every such channel is tagged for both uses, compute
/// storage and vertex source. The instance streams also line up with the
/// attribute locations of `Particle::desc`: slot `k` feeds location `k`.
pub proof fn lemma_render_reads_simulation_storage()
    ensures
        forall|k: int|
            1 <= k < spec_render_slots().len() ==> {
                let source = (#[trigger] spec_render_slots()[k]).source;
                exists|id: BufferId|
                    {
                        &&& source == SlotSource::Instances(id)
                        &&& is_particle_channel(id)
                        &&& spec_usage_of(id).storage
                        &&& spec_usage_of(id).vertex
                    }
            },
        forall|k: int| 0 <= k < spec_render_slots().len() ==> (#[trigger] spec_render_slots()[k]).slot == k,
{
    assert forall|k: int| 1 <= k < spec_render_slots().len() implies {
        let source = (#[trigger] spec_render_slots()[k]).source;
        exists|id: BufferId|
            {
                &&& source == SlotSource::Instances(id)
                &&& is_particle_channel(id)
                &&& spec_usage_of(id).storage
                &&& spec_usage_of(id).vertex
            }
    } by {
        let source = spec_render_slots()[k].source;
        if k == 1 {
            assert(source == SlotSource::Instances(BufferId::PositionX)
                && is_particle_channel(BufferId::PositionX)
                && spec_usage_of(BufferId::PositionX).storage
                && spec_usage_of(BufferId::PositionX).vertex);
        } else if k == 2 {
            assert(source == SlotSource::Instances(BufferId::PositionY)
                && is_particle_channel(BufferId::PositionY)
                && spec_usage_of(BufferId::PositionY).storage
                && spec_usage_of(BufferId::PositionY).vertex);
        } else if k == 3 {
            assert(source == SlotSource::Instances(BufferId::VelocityX)
                && is_particle_channel(BufferId::VelocityX)
                && spec_usage_of(BufferId::VelocityX).storage
                && spec_usage_of(BufferId::VelocityX).vertex);
        } else {
            assert(source == SlotSource::Instances(BufferId::VelocityY)
                && is_particle_channel(BufferId::VelocityY)
                && spec_usage_of(BufferId::VelocityY).storage
                && spec_usage_of(BufferId::VelocityY).vertex);
        }
    }
}

/// The render pass's vertex-slot wiring, exactly as `spec_render_slots`
/// lays it out: the quad mesh, then the four particle channels — the very
/// storage the compute stages write, not a copy.
pub fn render_slot_bindings() -> (slots: Vec<SlotBinding>)
    ensures
        slots@ =~= spec_render_slots(),
{
    let mut slots: Vec<SlotBinding> = Vec::new();
    slots.push(SlotBinding { slot: 0, source: SlotSource::QuadMesh });
    slots.push(SlotBinding { slot: 1, source: SlotSource::Instances(BufferId::PositionX) });
    slots.push(SlotBinding { slot: 2, source: SlotSource::Instances(BufferId::PositionY) });
    slots.push(SlotBinding { slot: 3, source: SlotSource::Instances(BufferId::VelocityX) });
    slots.push(SlotBinding { slot: 4, source: SlotSource::Instances(BufferId::VelocityY) });
    slots
}

/// The one draw a frame issues: how many indices of the quad mesh, over how
/// many instances.
#[derive(Clone, Copy, PartialEq, Eq, Structural, Debug)]
pub struct DrawCall {
    /// Number of indices drawn: the quad's six.
    pub index_count: u32,
    /// Number of instances drawn: one per particle.
    pub instance_count: u32,
}

/// The frame's single indexed, instanced draw: all six quad indices, one
/// instance per particle.
pub fn frame_draw(particles_len: u32) -> (draw: DrawCall)
    ensures
        draw.index_count == 6,
        draw.instance_count == particles_len,
{
    DrawCall { index_count: 6, instance_count: particles_len }
}

} // verus!
