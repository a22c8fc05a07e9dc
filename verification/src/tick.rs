//! One simulation tick as data: which compute stages run, in what order,
//! and over how many work groups.

use vstd::prelude::*;

verus! {

/// The three device-side compute stages of one tick. Each later stage reads
/// scratch data the previous stage wrote, so their order is load-bearing.
#[derive(Clone, Copy, PartialEq, Eq, Structural, Debug)]
pub enum ComputeStage {
    /// Accumulates kernel-weighted neighbor mass into the density array.
    Density,
    /// Derives pressure from density via the equation of state.
    Pressure,
    /// Applies pressure, viscosity and gravity forces, then integrates
    /// velocity and position in place.
    Integrate,
}

/// Position of a stage in the required dependency chain.
pub open spec fn stage_rank(stage: ComputeStage) -> int {
    match stage {
        ComputeStage::Density => 0,
        ComputeStage::Pressure => 1,
        ComputeStage::Integrate => 2,
    }
}

/// One dispatch of the tick: a stage and the number of work groups it is
/// launched over.
#[derive(Clone, Copy, PartialEq, Eq, Structural, Debug)]
pub struct StageDispatch {
    /// Which stage this dispatch runs.
    pub stage: ComputeStage,
    /// How many 64-wide work groups the dispatch launches.
    pub workgroups: u32,
}

/// Number of 64-wide work groups needed to cover `n` particles: the ceiling
/// of `n / 64`.
pub open spec fn spec_workgroup_count(n: int) -> int {
    (n + 63) / 64
}

/// Work groups for one stage over `particles_len` particles: enough groups
/// of 64 work items to give every particle index one item, and no whole
/// group beyond that. Indices past `particles_len` in the last group are
/// bounds-checked to a no-op by the device program.
pub fn workgroup_count(particles_len: u32) -> (groups: u32)
    ensures
        groups == spec_workgroup_count(particles_len as int),
        64 * groups >= particles_len,
        particles_len == 0 ==> groups == 0,
        particles_len > 0 ==> 64 * (groups - 1) < particles_len,
{
    let groups: u32 = particles_len / 64 + if particles_len % 64 != 0 {
        1
    } else {
        0
    };
    proof {
        assert(groups == spec_workgroup_count(particles_len as int)) by (nonlinear_arith)
            requires
                groups == particles_len as int / 64 + if particles_len as int % 64 != 0 {
                    1int
                } else {
                    0int
                },
        ;
        assert(64 * spec_workgroup_count(particles_len as int) >= particles_len) by (nonlinear_arith);
        assert(particles_len > 0 ==> 64 * (spec_workgroup_count(particles_len as int) - 1)
            < particles_len) by (nonlinear_arith);
    }
    groups
}

/// The plan for one full tick: the three stages in their required order —
/// density, then pressure, then integration — each launched over the same
/// group count. Submitting them as one ordered batch to an in-order queue
/// is what gives each stage a completed view of the previous stage's
/// writes.
pub fn tick_plan(particles_len: u32) -> (plan: Vec<StageDispatch>)
    ensures
        plan@.len() == 3,
        plan@[0].stage == ComputeStage::Density,
        plan@[1].stage == ComputeStage::Pressure,
        plan@[2].stage == ComputeStage::Integrate,
        forall|k: int|
            0 <= k < 3 ==> (#[trigger] plan@[k]).workgroups == spec_workgroup_count(
                particles_len as int,
            ),
{
    let groups = workgroup_count(particles_len);
    let mut plan: Vec<StageDispatch> = Vec::new();
    plan.push(StageDispatch { stage: ComputeStage::Density, workgroups: groups });
    plan.push(StageDispatch { stage: ComputeStage::Pressure, workgroups: groups });
    plan.push(StageDispatch { stage: ComputeStage::Integrate, workgroups: groups });
    plan
}

/// Ordering law of the tick: in any plan meeting `tick_plan`'s contract the
/// stages stand in strictly increasing dependency rank, so pressure never
/// runs before every density write is in the batch ahead of it, and
/// integration never runs before every pressure write is.
pub proof fn lemma_tick_plan_ordered(plan: Seq<StageDispatch>)
    requires
        plan.len() == 3,
        plan[0].stage == ComputeStage::Density,
        plan[1].stage == ComputeStage::Pressure,
        plan[2].stage == ComputeStage::Integrate,
    ensures
        forall|i: int, j: int|
            0 <= i < j < plan.len() ==> stage_rank(plan[i].stage) < stage_rank(plan[j].stage),
{
}

/// Entry point name under which the device program exports each stage.
pub fn stage_entry_point(stage: ComputeStage) -> (name: &'static str)
    ensures
        stage == ComputeStage::Density ==> name@ == "compute_densities"@,
        stage == ComputeStage::Pressure ==> name@ == "compute_pressures"@,
        stage == ComputeStage::Integrate ==> name@ == "main"@,
{
    match stage {
        ComputeStage::Density => "compute_densities",
        ComputeStage::Pressure => "compute_pressures",
        ComputeStage::Integrate => "main",
    }
}

} // verus!
