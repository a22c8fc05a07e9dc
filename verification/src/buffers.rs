//! The device-resident storage the simulation and the render stage share:
//! which buffers exist, what seeds them, how they are tagged, and how the
//! compute stages bind them.
//!
//! The four particle channels, the two scratch channels and the parameter
//! block are modelled word for word, so seeding and every later read are
//! exact; the shell around this crate uploads the same words unchanged.

use vstd::prelude::*;
use crate::simulation::Particle;
use crate::simulation::SimulationParams;

verus! {

/// The particle state as the device stores it: four parallel arrays, one
/// per channel, indexed by a common particle index. All four always have
/// the same length, and index `i` refers to the same particle in each —
/// the device kernels and the render stage address each channel as its own
/// contiguous stream.
pub struct ParticleArrays {
    /// The x position channel.
    pub position_x: Vec<u32>,
    /// The y position channel.
    pub position_y: Vec<u32>,
    /// The x velocity channel.
    pub velocity_x: Vec<u32>,
    /// The y velocity channel.
    pub velocity_y: Vec<u32>,
}

impl ParticleArrays {
    /// The four arrays hold one word per particle each.
    pub open spec fn wf(&self) -> bool {
        &&& self.position_y@.len() == self.position_x@.len()
        &&& self.velocity_x@.len() == self.position_x@.len()
        &&& self.velocity_y@.len() == self.position_x@.len()
    }

    /// The common length of the four arrays.
    pub open spec fn spec_len(&self) -> int {
        self.position_x@.len() as int
    }

    /// These arrays are the columnar split of `particles`: channel by
    /// channel, word `i` is particle `i`'s word.
    pub open spec fn is_split_of(&self, particles: Seq<Particle>) -> bool {
        &&& self.wf()
        &&& self.spec_len() == particles.len()
        &&& forall|i: int|
            0 <= i < particles.len() ==> {
                &&& self.position_x@[i] == (#[trigger] particles[i]).position_x
                &&& self.position_y@[i] == particles[i].position_y
                &&& self.velocity_x@[i] == particles[i].velocity_x
                &&& self.velocity_y@[i] == particles[i].velocity_y
            }
    }

    /// Columnar split of a particle vector into the four channel arrays
    /// the device works on.
    pub fn split(particles: &Vec<Particle>) -> (arrays: ParticleArrays)
        ensures
            arrays.is_split_of(particles@),
    {
        let mut position_x: Vec<u32> = Vec::new();
        let mut position_y: Vec<u32> = Vec::new();
        let mut velocity_x: Vec<u32> = Vec::new();
        let mut velocity_y: Vec<u32> = Vec::new();
        let mut i: usize = 0;
        while i < particles.len()
            invariant
                i <= particles@.len(),
                position_x@.len() == i,
                position_y@.len() == i,
                velocity_x@.len() == i,
                velocity_y@.len() == i,
                forall|m: int|
                    0 <= m < i ==> {
                        &&& position_x@[m] == (#[trigger] particles@[m]).position_x
                        &&& position_y@[m] == particles@[m].position_y
                        &&& velocity_x@[m] == particles@[m].velocity_x
                        &&& velocity_y@[m] == particles@[m].velocity_y
                    },
            decreases particles@.len() - i,
        {
            let p = particles[i];
            position_x.push(p.position_x);
            position_y.push(p.position_y);
            velocity_x.push(p.velocity_x);
            velocity_y.push(p.velocity_y);
            i = i + 1;
        }
        ParticleArrays { position_x, position_y, velocity_x, velocity_y }
    }

    /// The common length of the four arrays.
    pub fn len(&self) -> (n: usize)
        ensures
            n == self.spec_len(),
    {
        self.position_x.len()
    }
}

/// Names for the seven device allocations.
#[derive(Clone, Copy, PartialEq, Eq, Structural, Debug)]
pub enum BufferId {
    /// Particle x positions.
    PositionX,
    /// Particle y positions.
    PositionY,
    /// Particle x velocities.
    VelocityX,
    /// Particle y velocities.
    VelocityY,
    /// Scratch densities, written by the density stage.
    Densities,
    /// Scratch pressures, written by the pressure stage.
    Pressures,
    /// The uniform parameter block.
    Params,
}

/// Usage tags an allocation is created with.
#[derive(Clone, Copy, PartialEq, Eq, Structural, Debug)]
pub struct BufferUsageTags {
    /// Readable and writable by compute stages as storage.
    pub storage: bool,
    /// Read by stages as a uniform block.
    pub uniform: bool,
    /// Readable by the render stage as per-instance vertex data.
    pub vertex: bool,
    /// May be overwritten by host uploads.
    pub copy_dst: bool,
    /// May be copied back out of.
    pub copy_src: bool,
}

/// Size and tags of one allocation.
#[derive(Clone, Copy, PartialEq, Eq, Structural, Debug)]
pub struct BufferSpec {
    /// Which allocation this describes.
    pub id: BufferId,
    /// Length in 32-bit words.
    pub len_words: u32,
    /// Usage tags the allocation is created with.
    pub usage: BufferUsageTags,
}

/// The four particle channels, as opposed to the scratch channels and the
/// parameter block.
pub open spec fn is_particle_channel(id: BufferId) -> bool {
    id == BufferId::PositionX || id == BufferId::PositionY || id == BufferId::VelocityX || id
        == BufferId::VelocityY
}

/// The two scratch channels.
pub open spec fn is_scratch_channel(id: BufferId) -> bool {
    id == BufferId::Densities || id == BufferId::Pressures
}

/// Tags of the four particle channels: compute storage that doubles as
/// per-instance vertex data, so the render stage reads the identical
/// allocation the integrate stage writes — a copy would drift from the
/// authoritative state.
pub open spec fn particle_usage() -> BufferUsageTags {
    BufferUsageTags { storage: true, uniform: false, vertex: true, copy_dst: true, copy_src: true }
}

/// Tags of the two scratch channels: compute storage only, never seen by
/// the render stage.
pub open spec fn scratch_usage() -> BufferUsageTags {
    BufferUsageTags { storage: true, uniform: false, vertex: false, copy_dst: true, copy_src: false }
}

/// Tags of the parameter block: a uniform block, uploaded once.
pub open spec fn params_usage() -> BufferUsageTags {
    BufferUsageTags { storage: false, uniform: true, vertex: false, copy_dst: true, copy_src: false }
}

/// The tags an allocation must be created with, by buffer.
pub open spec fn spec_usage_of(id: BufferId) -> BufferUsageTags {
    if is_particle_channel(id) {
        particle_usage()
    } else if is_scratch_channel(id) {
        scratch_usage()
    } else {
        params_usage()
    }
}

/// Words an allocation holds, by buffer: one word per particle for the six
/// channel arrays, sixteen for the parameter block.
pub open spec fn spec_len_words_of(id: BufferId, particles_len: u32) -> u32 {
    if id == BufferId::Params {
        16u32
    } else {
        particles_len
    }
}

/// The allocation plan for `particles_len` particles, in creation order:
/// the four particle channels, the two scratch channels, the parameter
/// block.
pub open spec fn spec_buffer_plan(particles_len: u32) -> Seq<BufferSpec> {
    seq![
        BufferId::PositionX,
        BufferId::PositionY,
        BufferId::VelocityX,
        BufferId::VelocityY,
        BufferId::Densities,
        BufferId::Pressures,
        BufferId::Params,
    ].map_values(
        |id: BufferId|
            BufferSpec {
                id,
                len_words: spec_len_words_of(id, particles_len),
                usage: spec_usage_of(id),
            },
    )
}

/// Tag law of the allocation plan: the vertex tag marks exactly the four
/// particle channels — the dual use that hands the render stage the very
/// storage the integrate stage writes — everything but the parameter block
/// is compute storage, and the parameter block alone is a uniform.
pub proof fn lemma_plan_tags(particles_len: u32)
    ensures
        forall|id: BufferId| (#[trigger] spec_usage_of(id)).vertex <==> is_particle_channel(id),
        forall|id: BufferId| (#[trigger] spec_usage_of(id)).storage <==> id != BufferId::Params,
        forall|id: BufferId| (#[trigger] spec_usage_of(id)).uniform <==> id == BufferId::Params,
        forall|k: int|
            0 <= k < spec_buffer_plan(particles_len).len() ==> {
                let spec = #[trigger] spec_buffer_plan(particles_len)[k];
                spec.usage == spec_usage_of(spec.id) && spec.len_words == spec_len_words_of(
                    spec.id,
                    particles_len,
                )
            },
{
}

/// The allocation plan for `particles_len` particles: the four particle
/// channels, the two scratch channels — one word per particle each — and
/// the sixteen-word parameter block, each with the tags it must be created
/// with.
pub fn buffer_plan(particles_len: u32) -> (specs: Vec<BufferSpec>)
    ensures
        specs@ =~= spec_buffer_plan(particles_len),
        specs@.len() == 7,
{
    let particle_tags = BufferUsageTags {
        storage: true,
        uniform: false,
        vertex: true,
        copy_dst: true,
        copy_src: true,
    };
    let scratch_tags = BufferUsageTags {
        storage: true,
        uniform: false,
        vertex: false,
        copy_dst: true,
        copy_src: false,
    };
    let mut specs: Vec<BufferSpec> = Vec::new();
    specs.push(BufferSpec { id: BufferId::PositionX, len_words: particles_len, usage: particle_tags });
    specs.push(BufferSpec { id: BufferId::PositionY, len_words: particles_len, usage: particle_tags });
    specs.push(BufferSpec { id: BufferId::VelocityX, len_words: particles_len, usage: particle_tags });
    specs.push(BufferSpec { id: BufferId::VelocityY, len_words: particles_len, usage: particle_tags });
    specs.push(BufferSpec { id: BufferId::Densities, len_words: particles_len, usage: scratch_tags });
    specs.push(BufferSpec { id: BufferId::Pressures, len_words: particles_len, usage: scratch_tags });
    specs.push(
        BufferSpec {
            id: BufferId::Params,
            len_words: 16,
            usage: BufferUsageTags {
                storage: false,
                uniform: true,
                vertex: false,
                copy_dst: true,
                copy_src: false,
            },
        },
    );
    specs
}

/// Host image of the seven device allocations, word for word: the durable
/// particle state, the per-tick scratch state, and the parameter block.
pub struct BufferSet {
    /// The four particle channel arrays.
    pub particles: ParticleArrays,
    /// Scratch densities, one word per particle.
    pub densities: Vec<u32>,
    /// Scratch pressures, one word per particle.
    pub pressures: Vec<u32>,
    /// The serialized parameter block, sixteen words.
    pub params: Vec<u32>,
}

impl BufferSet {
    /// Every array holds one word per particle, and the parameter block its
    /// sixteen.
    pub open spec fn wf(&self) -> bool {
        &&& self.particles.wf()
        &&& self.densities@.len() == self.particles.spec_len()
        &&& self.pressures@.len() == self.particles.spec_len()
        &&& self.params@.len() == 16
    }

    /// The seeded storage for a simulation: the particle channels split
    /// columnar from `particles`, both scratch channels zeroed (the word 0
    /// encodes the scalar zero), and the parameter block serialized in
    /// device order.
    pub fn new(particles: &Vec<Particle>, params: &SimulationParams) -> (bufs: BufferSet)
        requires
            particles@.len() == params.spec_particles_len(),
        ensures
            bufs.wf(),
            bufs.particles.is_split_of(particles@),
            bufs.densities@ =~= Seq::new(particles@.len(), |i: int| 0u32),
            bufs.pressures@ =~= Seq::new(particles@.len(), |i: int| 0u32),
            bufs.params@ == params.words_spec(),
    {
        let arrays = ParticleArrays::split(particles);
        let n = particles.len();
        let mut densities: Vec<u32> = Vec::new();
        let mut pressures: Vec<u32> = Vec::new();
        let mut i: usize = 0;
        while i < n
            invariant
                i <= n,
                densities@.len() == i,
                pressures@.len() == i,
                forall|m: int| 0 <= m < i ==> #[trigger] densities@[m] == 0u32,
                forall|m: int| 0 <= m < i ==> #[trigger] pressures@[m] == 0u32,
            decreases n - i,
        {
            densities.push(0);
            pressures.push(0);
            i = i + 1;
        }
        let words = params.words();
        BufferSet { particles: arrays, densities, pressures, params: words }
    }
}

/// The compute stages' binding of one buffer.
#[derive(Clone, Copy, PartialEq, Eq, Structural, Debug)]
pub enum BindingKind {
    /// Bound as storage, readable and writable by the stage.
    StorageReadWrite,
    /// Bound as a read-only uniform block.
    Uniform,
}

/// One entry of a bind group: a binding index and the buffer behind it.
#[derive(Clone, Copy, PartialEq, Eq, Structural, Debug)]
pub struct BindingDesc {
    /// Binding index within the group.
    pub binding: u32,
    /// The buffer bound there.
    pub buffer: BufferId,
    /// How the stages access it.
    pub kind: BindingKind,
}

/// One bind group: its index and its ordered entries.
pub struct BindGroupDesc {
    /// Group index.
    pub group: u32,
    /// The group's entries, in binding order.
    pub entries: Vec<BindingDesc>,
}

/// The entries of compute bind group `group`: group 0 binds the four
/// particle channels as read-write storage at bindings 0 through 3, group 1
/// the two scratch channels at bindings 0 and 1, and group 2 the parameter
/// block as a uniform at binding 0.
pub open spec fn spec_compute_bindings(group: int) -> Seq<BindingDesc> {
    if group == 0 {
        seq![
            BindingDesc {
                binding: 0,
                buffer: BufferId::PositionX,
                kind: BindingKind::StorageReadWrite,
            },
            BindingDesc {
                binding: 1,
                buffer: BufferId::PositionY,
                kind: BindingKind::StorageReadWrite,
            },
            BindingDesc {
                binding: 2,
                buffer: BufferId::VelocityX,
                kind: BindingKind::StorageReadWrite,
            },
            BindingDesc {
                binding: 3,
                buffer: BufferId::VelocityY,
                kind: BindingKind::StorageReadWrite,
            },
        ]
    } else if group == 1 {
        seq![
            BindingDesc {
                binding: 0,
                buffer: BufferId::Densities,
                kind: BindingKind::StorageReadWrite,
            },
            BindingDesc {
                binding: 1,
                buffer: BufferId::Pressures,
                kind: BindingKind::StorageReadWrite,
            },
        ]
    } else {
        seq![BindingDesc { binding: 0, buffer: BufferId::Params, kind: BindingKind::Uniform }]
    }
}

/// Consistency law of the binding topology: every buffer a stage binds as
/// read-write storage is tagged storage in the allocation plan, and the
/// uniform binding is tagged uniform — each binding is backed by an
/// allocation created for exactly that use. Bindings are also dense: entry
/// `k` of a group binds index `k`.
pub proof fn lemma_bindings_match_tags()
    ensures
        forall|group: int, k: int|
            0 <= group < 3 && 0 <= k < spec_compute_bindings(group).len() ==> {
                let entry = #[trigger] spec_compute_bindings(group)[k];
                &&& entry.binding == k
                &&& (entry.kind == BindingKind::StorageReadWrite ==> spec_usage_of(
                    entry.buffer,
                ).storage)
                &&& (entry.kind == BindingKind::Uniform ==> spec_usage_of(entry.buffer).uniform)
            },
{
}

/// The binding topology all three compute stages share, group by group as
/// `spec_compute_bindings` lays it out. One topology for all stages means a
/// single pipeline layout and no rebinding between dispatches.
pub fn binding_plan() -> (groups: Vec<BindGroupDesc>)
    ensures
        groups@.len() == 3,
        forall|g: int|
            0 <= g < 3 ==> (#[trigger] groups@[g]).group == g && groups@[g].entries@
                =~= spec_compute_bindings(g),
{
    let mut group0: Vec<BindingDesc> = Vec::new();
    group0.push(
        BindingDesc {
            binding: 0,
            buffer: BufferId::PositionX,
            kind: BindingKind::StorageReadWrite,
        },
    );
    group0.push(
        BindingDesc {
            binding: 1,
            buffer: BufferId::PositionY,
            kind: BindingKind::StorageReadWrite,
        },
    );
    group0.push(
        BindingDesc {
            binding: 2,
            buffer: BufferId::VelocityX,
            kind: BindingKind::StorageReadWrite,
        },
    );
    group0.push(
        BindingDesc {
            binding: 3,
            buffer: BufferId::VelocityY,
            kind: BindingKind::StorageReadWrite,
        },
    );
    let mut group1: Vec<BindingDesc> = Vec::new();
    group1.push(
        BindingDesc {
            binding: 0,
            buffer: BufferId::Densities,
            kind: BindingKind::StorageReadWrite,
        },
    );
    group1.push(
        BindingDesc {
            binding: 1,
            buffer: BufferId::Pressures,
            kind: BindingKind::StorageReadWrite,
        },
    );
    let mut group2: Vec<BindingDesc> = Vec::new();
    group2.push(BindingDesc { binding: 0, buffer: BufferId::Params, kind: BindingKind::Uniform });
    let mut groups: Vec<BindGroupDesc> = Vec::new();
    groups.push(BindGroupDesc { group: 0, entries: group0 });
    groups.push(BindGroupDesc { group: 1, entries: group1 });
    groups.push(BindGroupDesc { group: 2, entries: group2 });
    groups
}

/// The word the render stage's per-instance read observes: attribute stream
/// `slot` (1 through 4, after the quad mesh at slot 0) at instance `i`.
/// With the streams' layout — four-byte stride, offset zero — that is word
/// `i` of the slot's channel array.
pub open spec fn spec_instance_word(bufs: BufferSet, slot: int, i: int) -> u32 {
    if slot == 1 {
        bufs.particles.position_x@[i]
    } else if slot == 2 {
        bufs.particles.position_y@[i]
    } else if slot == 3 {
        bufs.particles.velocity_x@[i]
    } else {
        bufs.particles.velocity_y@[i]
    }
}

impl BufferSet {
    /// The render stage's per-instance attribute read of stream `slot` at
    /// instance `instance`.
    pub fn instance_word(&self, slot: u32, instance: usize) -> (word: u32)
        requires
            1 <= slot <= 4,
            self.particles.wf(),
            instance < self.particles.spec_len(),
        ensures
            word == spec_instance_word(*self, slot as int, instance as int),
    {
        if slot == 1 {
            self.particles.position_x[instance]
        } else if slot == 2 {
            self.particles.position_y[instance]
        } else if slot == 3 {
            self.particles.velocity_x[instance]
        } else {
            self.particles.velocity_y[instance]
        }
    }
}

/// Round-trip law of the buffer layout: in a buffer set whose particle
/// arrays were seeded from `particles`, the render stage's per-instance
/// read observes, before any tick runs, exactly the words written at
/// construction — stream 1 is particle `i`'s x position, stream 2 its y
/// position, stream 3 its x velocity, stream 4 its y velocity.
pub proof fn lemma_seed_read_round_trip(bufs: BufferSet, particles: Seq<Particle>)
    requires
        bufs.particles.is_split_of(particles),
    ensures
        forall|i: int|
            0 <= i < particles.len() ==> {
                &&& spec_instance_word(bufs, 1, i) == (#[trigger] particles[i]).position_x
                &&& spec_instance_word(bufs, 2, i) == particles[i].position_y
                &&& spec_instance_word(bufs, 3, i) == particles[i].velocity_x
                &&& spec_instance_word(bufs, 4, i) == particles[i].velocity_y
            },
{
}

} // verus!
