//! Particle state and the simulation parameter block, exactly as the device
//! program sees them.
//!
//! Every device-side scalar is carried host-side as its raw 32-bit word, so
//! layout bookkeeping stays exact. The numeric value a word encodes is a
//! device concern; producing one (and the floating-point arithmetic behind
//! it) belongs to the unverified shell around this crate.

use vstd::prelude::*;
use vstd::assert_seqs_equal;

verus! {

/// One simulated point mass, as the device reads it: four independent
/// scalar channels. Position and velocity are split per axis because the
/// device program and the render stage address each channel as its own
/// contiguous stream.
#[derive(Clone, Copy, PartialEq, Eq, Structural, Debug)]
pub struct Particle {
    /// Word of the x position scalar.
    pub position_x: u32,
    /// Word of the y position scalar.
    pub position_y: u32,
    /// Word of the x velocity scalar.
    pub velocity_x: u32,
    /// Word of the y velocity scalar.
    pub velocity_y: u32,
}

/// Layout of one per-instance vertex attribute stream feeding the render
/// stage: a single scalar attribute that advances once per drawn instance.
#[derive(Clone, Copy, PartialEq, Eq, Structural, Debug)]
pub struct InstanceStreamLayout {
    /// Byte stride between consecutive instances' values.
    pub array_stride: u32,
    /// Attribute location the device program binds the stream to.
    pub shader_location: u32,
    /// Byte offset of the attribute within one stride.
    pub offset: u32,
}

impl Particle {
    /// A particle from its position and velocity words, given as `[x, y]`
    /// pairs.
    pub fn new(position: [u32; 2], velocity: [u32; 2]) -> (p: Particle)
        ensures
            p.position_x == position[0],
            p.position_y == position[1],
            p.velocity_x == velocity[0],
            p.velocity_y == velocity[1],
    {
        Particle {
            position_x: position[0],
            position_y: position[1],
            velocity_x: velocity[0],
            velocity_y: velocity[1],
        }
    }

    /// Layouts of the four per-instance streams, in channel order: position
    /// x, position y, velocity x, velocity y. Each stream advances one
    /// 32-bit scalar (four bytes) per instance with the attribute at offset
    /// zero, and the streams bind at attribute locations 1 through 4 —
    /// location 0 is the quad mesh the instances are drawn over.
    pub fn desc() -> (layouts: Vec<InstanceStreamLayout>)
        ensures
            layouts@.len() == 4,
            forall|k: int|
                0 <= k < 4 ==> {
                    &&& (#[trigger] layouts@[k]).array_stride == 4
                    &&& layouts@[k].offset == 0
                    &&& layouts@[k].shader_location == k + 1
                },
    {
        let mut layouts: Vec<InstanceStreamLayout> = Vec::new();
        layouts.push(InstanceStreamLayout { array_stride: 4, shader_location: 1, offset: 0 });
        layouts.push(InstanceStreamLayout { array_stride: 4, shader_location: 2, offset: 0 });
        layouts.push(InstanceStreamLayout { array_stride: 4, shader_location: 3, offset: 0 });
        layouts.push(InstanceStreamLayout { array_stride: 4, shader_location: 4, offset: 0 });
        layouts
    }
}

/// The four values derived from the smoothing radius `h`: its square and
/// the three kernel normalization coefficients, in closed form `4 / (π·h⁸)`
/// for the density kernel, `−30 / (π·h⁵)` for the pressure-gradient kernel,
/// and `40 · π·h⁴` for the viscosity Laplacian. The last multiplies where
/// the conventional normalization divides by `h⁵`; the form is kept as the
/// device kernel expects it rather than corrected. All four are pure
/// functions of `h` alone; the arithmetic is floating point, so the caller
/// that owns the float unit evaluates the formulas and this crate records
/// the words and keeps them together.
#[derive(Clone, Copy, PartialEq, Eq, Structural, Debug)]
pub struct KernelCoeffs {
    /// Word of `h²`.
    pub smoothing_radius_sq: u32,
    /// Word of the density kernel coefficient.
    pub density: u32,
    /// Word of the pressure-gradient kernel coefficient.
    pub pressure_gradient: u32,
    /// Word of the viscosity Laplacian coefficient.
    pub viscosity_laplacian: u32,
}

/// The simulation parameter block: nine physical inputs plus the four
/// derived kernel values, immutable after construction and uploaded once as
/// a single uniform block. The derived fields can only enter through the
/// one constructor, together with the inputs they come from, so the block
/// never holds a half-updated mixture the device math would misread.
#[derive(Clone, Copy, Debug)]
pub struct SimulationParams {
    time_step: u32,
    particle_mass: u32,
    rest_density: u32,
    stiffness: u32,
    smoothing_radius: u32,
    restitution: u32,
    viscosity: u32,
    particles_len: u32,
    gravity_force: [u32; 2],
    smoothing_radius_sq: u32,
    density_smoothing_function_coeff: u32,
    gradient_pressure_smoothing_function_coeff: u32,
    laplacian_viscosity_smoothing_function_coeff: u32,
}

impl SimulationParams {
    /// Number of particles the simulation advances; fixed for the block's
    /// lifetime.
    pub closed spec fn spec_particles_len(&self) -> u32 {
        self.particles_len
    }

    /// Number of particles the simulation advances.
    pub fn particles_len(&self) -> (count: u32)
        ensures
            count == self.spec_particles_len(),
    {
        self.particles_len
    }

    /// The block as the ordered sequence of 32-bit words the device reads:
    /// the seven physical scalars, the particle count, the two gravity
    /// components, two zero padding words that align the trailing fields,
    /// then the four derived kernel values.
    pub closed spec fn words_spec(&self) -> Seq<u32> {
        seq![
            self.time_step,
            self.particle_mass,
            self.rest_density,
            self.stiffness,
            self.smoothing_radius,
            self.restitution,
            self.viscosity,
            self.particles_len,
            self.gravity_force[0],
            self.gravity_force[1],
            0u32,
            0u32,
            self.smoothing_radius_sq,
            self.density_smoothing_function_coeff,
            self.gradient_pressure_smoothing_function_coeff,
            self.laplacian_viscosity_smoothing_function_coeff,
        ]
    }

    /// A fully populated parameter block from the nine physical inputs and
    /// the derived kernel values. The contract pins every word of the
    /// block's device layout to the inputs.
    pub fn new(
        time_step: u32,
        particle_mass: u32,
        rest_density: u32,
        stiffness: u32,
        smoothing_radius: u32,
        restitution: u32,
        viscosity: u32,
        gravity_force: [u32; 2],
        particles_len: u32,
        coeffs: KernelCoeffs,
    ) -> (params: SimulationParams)
        ensures
            params.spec_particles_len() == particles_len,
            params.words_spec() =~= seq![
                time_step,
                particle_mass,
                rest_density,
                stiffness,
                smoothing_radius,
                restitution,
                viscosity,
                particles_len,
                gravity_force[0],
                gravity_force[1],
                0u32,
                0u32,
                coeffs.smoothing_radius_sq,
                coeffs.density,
                coeffs.pressure_gradient,
                coeffs.viscosity_laplacian,
            ],
    {
        SimulationParams {
            time_step,
            particle_mass,
            rest_density,
            stiffness,
            smoothing_radius,
            restitution,
            viscosity,
            particles_len,
            gravity_force,
            smoothing_radius_sq: coeffs.smoothing_radius_sq,
            density_smoothing_function_coeff: coeffs.density,
            gradient_pressure_smoothing_function_coeff: coeffs.pressure_gradient,
            laplacian_viscosity_smoothing_function_coeff: coeffs.viscosity_laplacian,
        }
    }

    /// The block serialized for upload: exactly `words_spec`, sixteen words
    /// (64 bytes) in device field order.
    pub fn words(&self) -> (words: Vec<u32>)
        ensures
            words@ == self.words_spec(),
            words@.len() == 16,
    {
        let mut words: Vec<u32> = Vec::new();
        words.push(self.time_step);
        words.push(self.particle_mass);
        words.push(self.rest_density);
        words.push(self.stiffness);
        words.push(self.smoothing_radius);
        words.push(self.restitution);
        words.push(self.viscosity);
        words.push(self.particles_len);
        words.push(self.gravity_force[0]);
        words.push(self.gravity_force[1]);
        words.push(0);
        words.push(0);
        words.push(self.smoothing_radius_sq);
        words.push(self.density_smoothing_function_coeff);
        words.push(self.gradient_pressure_smoothing_function_coeff);
        words.push(self.laplacian_viscosity_smoothing_function_coeff);
        proof {
            assert_seqs_equal!(words@ == self.words_spec());
        }
        words
    }
}

} // verus!
