use fluid_sim::buffers::{binding_plan, buffer_plan, BindingKind, BufferId, BufferSet};
use fluid_sim::events::{
    exit_on_key, frame_action, recovery_action, FrameAction, FrameEvent, KeyKind, PresentFailure,
    RecoveryAction,
};
use fluid_sim::placement::{grid_side, placement_cells};
use fluid_sim::render::{frame_draw, quad_indices, quad_vertices, render_slot_bindings, SlotSource};
use fluid_sim::simulation::{KernelCoeffs, Particle, SimulationParams};
use fluid_sim::surface::SurfaceState;
use fluid_sim::tick::{stage_entry_point, tick_plan, workgroup_count, ComputeStage};

const PI: f32 = std::f32::consts::PI;

/// The parameter block the program ships with, its derived values computed
/// here from the closed-form expressions.
fn shipped_params(particles_len: u32) -> SimulationParams {
    let h: f32 = 0.2;
    let coeffs = KernelCoeffs {
        smoothing_radius_sq: (h * h).to_bits(),
        density: (4.0 / (PI * h.powi(8))).to_bits(),
        pressure_gradient: (-30.0 / (PI * h.powi(5))).to_bits(),
        viscosity_laplacian: (40.0 * (PI * h.powi(4))).to_bits(),
    };
    SimulationParams::new(
        (1.0f32 / 60.0).to_bits(),
        10.0f32.to_bits(),
        5000.0f32.to_bits(),
        0.8f32.to_bits(),
        h.to_bits(),
        0.1f32.to_bits(),
        20.5f32.to_bits(),
        [0.0f32.to_bits(), (-100_000.0f32).to_bits()],
        particles_len,
        coeffs,
    )
}

#[test]
fn params_word_layout() {
    let params = shipped_params(10_000);
    let words = params.words();
    assert_eq!(words.len(), 16);
    let h: f32 = 0.2;
    assert_eq!(words[0], (1.0f32 / 60.0).to_bits());
    assert_eq!(words[1], 10.0f32.to_bits());
    assert_eq!(words[2], 5000.0f32.to_bits());
    assert_eq!(words[3], 0.8f32.to_bits());
    assert_eq!(words[4], h.to_bits());
    assert_eq!(words[5], 0.1f32.to_bits());
    assert_eq!(words[6], 20.5f32.to_bits());
    assert_eq!(words[7], 10_000);
    assert_eq!(words[8], 0.0f32.to_bits());
    assert_eq!(words[9], (-100_000.0f32).to_bits());
    assert_eq!(words[10], 0);
    assert_eq!(words[11], 0);
    assert_eq!(f32::from_bits(words[12]), h * h);
    assert_eq!(f32::from_bits(words[13]), 4.0 / (PI * h.powi(8)));
    assert_eq!(f32::from_bits(words[14]), -30.0 / (PI * h.powi(5)));
    assert_eq!(f32::from_bits(words[15]), 40.0 * (PI * h.powi(4)));
    assert_eq!(params.particles_len(), 10_000);
}

#[test]
fn particle_new_keeps_channels() {
    let p = Particle::new([1, 2], [3, 4]);
    assert_eq!(p.position_x, 1);
    assert_eq!(p.position_y, 2);
    assert_eq!(p.velocity_x, 3);
    assert_eq!(p.velocity_y, 4);
}

#[test]
fn desc_four_instance_streams() {
    let layouts = Particle::desc();
    assert_eq!(layouts.len(), 4);
    for (k, layout) in layouts.iter().enumerate() {
        assert_eq!(layout.array_stride, 4);
        assert_eq!(layout.offset, 0);
        assert_eq!(layout.shader_location as usize, k + 1);
    }
}

#[test]
fn grid_side_is_ceil_sqrt() {
    for (n, side) in [
        (0u32, 0u32),
        (1, 1),
        (2, 2),
        (4, 2),
        (5, 3),
        (9, 3),
        (10, 4),
        (16, 4),
        (17, 5),
        (10_000, 100),
    ] {
        assert_eq!(grid_side(n), side);
    }
}

#[test]
fn placement_truncates_row_major() {
    let cells = placement_cells(10);
    assert_eq!(cells.len(), 10);
    for (k, cell) in cells.iter().enumerate() {
        assert!(cell.row < 4 && cell.col < 4);
        assert_eq!(cell.row as usize, k / 4);
        assert_eq!(cell.col as usize, k % 4);
        assert!((cell.row * 4 + cell.col) as usize == k && k < 10);
    }
}

#[test]
fn placement_zero_is_empty() {
    assert!(placement_cells(0).is_empty());
}

#[test]
fn placement_centres_inside_unit_square() {
    let n: u32 = 10;
    let side = grid_side(n);
    let spacing = 1.0f32 / side as f32;
    let start = -0.5 + spacing / 2.0;
    for cell in placement_cells(n) {
        let x = start + cell.row as f32 * spacing;
        let y = start + cell.col as f32 * spacing;
        assert!((-0.5..=0.5).contains(&x));
        assert!((-0.5..=0.5).contains(&y));
    }
}

#[test]
fn workgroup_count_covers_particles() {
    for (n, groups) in [(0u32, 0u32), (1, 1), (63, 1), (64, 1), (65, 2), (10_000, 157)] {
        assert_eq!(workgroup_count(n), groups);
    }
}

#[test]
fn tick_runs_stages_in_order() {
    let plan = tick_plan(10_000);
    assert_eq!(plan.len(), 3);
    assert_eq!(plan[0].stage, ComputeStage::Density);
    assert_eq!(plan[1].stage, ComputeStage::Pressure);
    assert_eq!(plan[2].stage, ComputeStage::Integrate);
    for dispatch in &plan {
        assert_eq!(dispatch.workgroups, 157);
    }
}

#[test]
fn zero_length_tick_is_empty() {
    let plan = tick_plan(0);
    assert_eq!(plan.len(), 3);
    for dispatch in &plan {
        assert_eq!(dispatch.workgroups, 0);
    }
    let params = shipped_params(0);
    let particles: Vec<Particle> = Vec::new();
    let bufs = BufferSet::new(&particles, &params);
    assert_eq!(bufs.particles.len(), 0);
    assert!(bufs.particles.position_x.is_empty());
    assert!(bufs.particles.position_y.is_empty());
    assert!(bufs.particles.velocity_x.is_empty());
    assert!(bufs.particles.velocity_y.is_empty());
    assert!(bufs.densities.is_empty());
    assert!(bufs.pressures.is_empty());
}

#[test]
fn stage_entry_points() {
    assert_eq!(stage_entry_point(ComputeStage::Density), "compute_densities");
    assert_eq!(stage_entry_point(ComputeStage::Pressure), "compute_pressures");
    assert_eq!(stage_entry_point(ComputeStage::Integrate), "main");
}

#[test]
fn buffer_plan_tags_and_sizes() {
    let specs = buffer_plan(10_000);
    assert_eq!(specs.len(), 7);
    let particle_ids = [
        BufferId::PositionX,
        BufferId::PositionY,
        BufferId::VelocityX,
        BufferId::VelocityY,
    ];
    for (k, id) in particle_ids.iter().enumerate() {
        let spec = specs[k];
        assert_eq!(spec.id, *id);
        assert_eq!(spec.len_words, 10_000);
        assert!(spec.usage.storage && spec.usage.vertex);
        assert!(spec.usage.copy_dst && spec.usage.copy_src);
        assert!(!spec.usage.uniform);
    }
    for (k, id) in [BufferId::Densities, BufferId::Pressures].iter().enumerate() {
        let spec = specs[4 + k];
        assert_eq!(spec.id, *id);
        assert_eq!(spec.len_words, 10_000);
        assert!(spec.usage.storage && spec.usage.copy_dst);
        assert!(!spec.usage.vertex && !spec.usage.uniform && !spec.usage.copy_src);
    }
    let params_spec = specs[6];
    assert_eq!(params_spec.id, BufferId::Params);
    assert_eq!(params_spec.len_words, 16);
    assert!(params_spec.usage.uniform && params_spec.usage.copy_dst);
    assert!(!params_spec.usage.storage && !params_spec.usage.vertex && !params_spec.usage.copy_src);
}

#[test]
fn binding_topology() {
    let groups = binding_plan();
    assert_eq!(groups.len(), 3);
    assert_eq!(groups[0].group, 0);
    let expected0 = [
        BufferId::PositionX,
        BufferId::PositionY,
        BufferId::VelocityX,
        BufferId::VelocityY,
    ];
    assert_eq!(groups[0].entries.len(), 4);
    for (k, entry) in groups[0].entries.iter().enumerate() {
        assert_eq!(entry.binding as usize, k);
        assert_eq!(entry.buffer, expected0[k]);
        assert_eq!(entry.kind, BindingKind::StorageReadWrite);
    }
    assert_eq!(groups[1].group, 1);
    assert_eq!(groups[1].entries.len(), 2);
    assert_eq!(groups[1].entries[0].buffer, BufferId::Densities);
    assert_eq!(groups[1].entries[1].buffer, BufferId::Pressures);
    for entry in &groups[1].entries {
        assert_eq!(entry.kind, BindingKind::StorageReadWrite);
    }
    assert_eq!(groups[2].group, 2);
    assert_eq!(groups[2].entries.len(), 1);
    assert_eq!(groups[2].entries[0].buffer, BufferId::Params);
    assert_eq!(groups[2].entries[0].kind, BindingKind::Uniform);
}

#[test]
fn seed_words_round_trip_to_instance_reads() {
    let values: [[f32; 4]; 3] = [
        [0.25, -1.5, 3.75, -0.125],
        [-0.5, 0.5, 0.0, 42.0],
        [1e-8, -1e8, 0.1, -0.1],
    ];
    let particles: Vec<Particle> = values
        .iter()
        .map(|v| {
            Particle::new(
                [v[0].to_bits(), v[1].to_bits()],
                [v[2].to_bits(), v[3].to_bits()],
            )
        })
        .collect();
    let params = shipped_params(3);
    let bufs = BufferSet::new(&particles, &params);
    for (i, v) in values.iter().enumerate() {
        for (slot, expected) in v.iter().enumerate() {
            let word = bufs.instance_word(slot as u32 + 1, i);
            assert_eq!(word, expected.to_bits());
            assert_eq!(f32::from_bits(word), *expected);
        }
    }
    for word in bufs.densities.iter().chain(bufs.pressures.iter()) {
        assert_eq!(*word, 0);
        assert_eq!(f32::from_bits(*word), 0.0);
    }
    assert_eq!(bufs.params, params.words());
}

#[test]
fn quad_mesh_is_two_triangles() {
    let vertices = quad_vertices();
    let expected = [(-1, -1), (1, -1), (1, 1), (-1, 1)];
    assert_eq!(vertices.len(), 4);
    for (vertex, (x2, y2)) in vertices.iter().zip(expected) {
        assert_eq!(vertex.x_doubled, x2);
        assert_eq!(vertex.y_doubled, y2);
        let x = vertex.x_doubled as f32 / 2.0;
        let y = vertex.y_doubled as f32 / 2.0;
        assert_eq!(x.abs(), 0.5);
        assert_eq!(y.abs(), 0.5);
    }
    let indices = quad_indices();
    assert_eq!(indices, vec![0, 1, 2, 0, 2, 3]);
    assert!(indices.iter().all(|i| (*i as usize) < vertices.len()));
}

#[test]
fn one_draw_per_frame() {
    let draw = frame_draw(10_000);
    assert_eq!(draw.index_count, 6);
    assert_eq!(draw.instance_count, 10_000);
    let empty = frame_draw(0);
    assert_eq!(empty.instance_count, 0);
}

#[test]
fn render_slots_share_compute_buffers() {
    let slots = render_slot_bindings();
    assert_eq!(slots.len(), 5);
    assert_eq!(slots[0].source, SlotSource::QuadMesh);
    let expected = [
        BufferId::PositionX,
        BufferId::PositionY,
        BufferId::VelocityX,
        BufferId::VelocityY,
    ];
    for (k, slot) in slots.iter().enumerate() {
        assert_eq!(slot.slot as usize, k);
        if k > 0 {
            assert_eq!(slot.source, SlotSource::Instances(expected[k - 1]));
        }
    }
}

#[test]
fn zero_resize_suspends_drawing() {
    let mut surface = SurfaceState::new(800, 600);
    assert!(!surface.should_draw());
    surface.resize(800, 600);
    assert!(surface.should_draw());
    surface.resize(0, 600);
    assert!(!surface.should_draw());
    assert_eq!(surface.width, 800);
    assert_eq!(surface.height, 600);
    surface.resize(640, 0);
    assert!(!surface.should_draw());
    surface.resize(640, 480);
    assert!(surface.should_draw());
    assert_eq!(surface.width, 640);
    assert_eq!(surface.height, 480);
}

#[test]
fn escape_and_enter_exit() {
    assert!(exit_on_key(KeyKind::Escape, true));
    assert!(exit_on_key(KeyKind::Enter, true));
    assert!(!exit_on_key(KeyKind::Escape, false));
    assert!(!exit_on_key(KeyKind::Enter, false));
    assert!(!exit_on_key(KeyKind::Other, true));
}

#[test]
fn transient_failures_reconfigure() {
    assert_eq!(recovery_action(PresentFailure::Lost), RecoveryAction::Reconfigure);
    assert_eq!(recovery_action(PresentFailure::Outdated), RecoveryAction::Reconfigure);
    assert_eq!(recovery_action(PresentFailure::Timeout), RecoveryAction::SkipFrame);
    assert_eq!(recovery_action(PresentFailure::OutOfMemory), RecoveryAction::SkipFrame);
    assert_eq!(recovery_action(PresentFailure::Unknown), RecoveryAction::SkipFrame);
}

#[test]
fn frame_dispatch() {
    assert_eq!(frame_action(FrameEvent::CloseRequested), FrameAction::Exit);
    assert_eq!(frame_action(FrameEvent::Resized(800, 600)), FrameAction::Resize(800, 600));
    assert_eq!(frame_action(FrameEvent::RedrawRequested), FrameAction::SimulateAndRender);
    assert_eq!(frame_action(FrameEvent::Key(KeyKind::Escape, true)), FrameAction::Exit);
    assert_eq!(frame_action(FrameEvent::Key(KeyKind::Enter, true)), FrameAction::Exit);
    assert_eq!(frame_action(FrameEvent::Key(KeyKind::Other, true)), FrameAction::Nothing);
    assert_eq!(frame_action(FrameEvent::Key(KeyKind::Escape, false)), FrameAction::Nothing);
    assert_eq!(frame_action(FrameEvent::PointerMoved), FrameAction::Nothing);
    assert_eq!(frame_action(FrameEvent::Ignored), FrameAction::Nothing);
}
