//! The schedule of a run.
//!
//! A host that executes the stages on a parallel device needs, for each run,
//! the kernels to launch, their order, and the number of work groups of each
//! launch.  A kernel that works cell by cell is launched in groups of eight
//! by eight cells.  A kernel that works face by face is launched with one
//! group per column of vertical faces, and one layer of groups for every
//! sixty-four rows.
use crate::definition::JumpFloodingUniform;
use crate::node::State;
use vstd::prelude::*;

verus! {

/// The edge of a work group, in cells.
pub const WORKGROUP_SIZE: u32 = 8;

/// A kernel.
#[derive(Clone, Copy, Debug, PartialEq, Eq, Structural)]
pub enum Stage {
    InitializeVelocity,
    InitializeGridCenter,
    UpdateGridLabel,
    AdvectLevelset,
    Advection,
    AddForce,
    Divergence,
    /// A pass of the relaxation from the current pressure to the scratch.
    JacobiIteration,
    /// A pass of the relaxation from the scratch back to the current
    /// pressure.
    JacobiIterationReverse,
    SolveVelocity,
    RecomputeLevelsetInitialization,
    /// A pass of the jump flooding with the given stride.
    RecomputeLevelsetIteration { step: u32 },
    RecomputeLevelsetSolve,
}

/// One launch: a kernel and the numbers of work groups along the three axes.
#[derive(Clone, Copy, Debug, PartialEq, Eq, Structural)]
pub struct Dispatch {
    pub stage: Stage,
    pub x: u32,
    pub y: u32,
    pub z: u32,
}

/// The launch of a kernel that works cell by cell.
pub open spec fn per_cell(stage: Stage, size: (u32, u32)) -> Dispatch {
    Dispatch { stage, x: size.0 / WORKGROUP_SIZE, y: size.1 / WORKGROUP_SIZE, z: 1 }
}

/// The launch of a kernel that works face by face.
pub open spec fn per_face(stage: Stage, size: (u32, u32)) -> Dispatch {
    Dispatch {
        stage,
        x: (size.0 + 1) as u32,
        y: size.1 / WORKGROUP_SIZE / WORKGROUP_SIZE,
        z: 1,
    }
}

/// The launches of `n` passes of the relaxation, which alternate between the
/// two directions.
pub open spec fn relaxation(n: nat, size: (u32, u32)) -> Seq<Dispatch> {
    Seq::new(
        n,
        |k: int|
            per_cell(
                if k % 2 == 0 {
                    Stage::JacobiIteration
                } else {
                    Stage::JacobiIterationReverse
                },
                size,
            ),
    )
}

/// The launches of the passes of the jump flooding, one for each stride.
pub open spec fn flooding(steps: Seq<JumpFloodingUniform>, size: (u32, u32)) -> Seq<Dispatch> {
    Seq::new(
        steps.len(),
        |k: int| per_cell(Stage::RecomputeLevelsetIteration { step: steps[k].step }, size),
    )
}

/// The first launches of a tick: labels, transport, forces and divergence.
pub open spec fn head_of_tick(size: (u32, u32)) -> Seq<Dispatch> {
    seq![
        per_cell(Stage::UpdateGridLabel, size),
        per_cell(Stage::AdvectLevelset, size),
        per_face(Stage::Advection, size),
        per_face(Stage::AddForce, size),
        per_cell(Stage::Divergence, size),
    ]
}

/// The launches of a tick between the relaxation and the flooding.
pub open spec fn middle_of_tick(size: (u32, u32)) -> Seq<Dispatch> {
    seq![
        per_face(Stage::SolveVelocity, size),
        per_cell(Stage::RecomputeLevelsetInitialization, size),
    ]
}

/// The last launch of a tick.
pub open spec fn tail_of_tick(size: (u32, u32)) -> Seq<Dispatch> {
    seq![per_cell(Stage::RecomputeLevelsetSolve, size)]
}

/// The launches of one run, in order: none while the node loads, the two
/// kernels of the initialization in the state `Init`, and the kernels of a
/// tick in the state `Update`.
pub open spec fn plan_spec(
    state: State,
    size: (u32, u32),
    jacobi_iterations: nat,
    steps: Seq<JumpFloodingUniform>,
) -> Seq<Dispatch> {
    match state {
        State::Loading => Seq::empty(),
        State::Init => seq![
            per_face(Stage::InitializeVelocity, size),
            per_cell(Stage::InitializeGridCenter, size),
        ],
        State::Update => head_of_tick(size) + relaxation(jacobi_iterations, size)
            + middle_of_tick(size) + flooding(steps, size) + tail_of_tick(size),
    }
}

/// Builds the launch of a kernel that works cell by cell.
pub fn dispatch_per_cell(stage: Stage, size: (u32, u32)) -> (d: Dispatch)
    ensures
        d == per_cell(stage, size),
{
    Dispatch { stage, x: size.0 / WORKGROUP_SIZE, y: size.1 / WORKGROUP_SIZE, z: 1 }
}

/// Builds the launch of a kernel that works face by face.
pub fn dispatch_per_face(stage: Stage, size: (u32, u32)) -> (d: Dispatch)
    requires
        size.0 < u32::MAX,
    ensures
        d == per_face(stage, size),
{
    Dispatch { stage, x: size.0 + 1, y: size.1 / WORKGROUP_SIZE / WORKGROUP_SIZE, z: 1 }
}

/// Lists the launches of one run.
pub fn plan(
    state: State,
    size: (u32, u32),
    jacobi_iterations: u32,
    steps: &Vec<JumpFloodingUniform>,
) -> (launches: Vec<Dispatch>)
    requires
        size.0 < u32::MAX,
    ensures
        launches@ == plan_spec(state, size, jacobi_iterations as nat, steps@),
{
    let mut launches: Vec<Dispatch> = Vec::new();
    match state {
        State::Loading => {
            proof {
                assert(launches@ =~= plan_spec(state, size, jacobi_iterations as nat, steps@));
            }
        },
        State::Init => {
            launches.push(dispatch_per_face(Stage::InitializeVelocity, size));
            launches.push(dispatch_per_cell(Stage::InitializeGridCenter, size));
            proof {
                assert(launches@ =~= plan_spec(state, size, jacobi_iterations as nat, steps@));
            }
        },
        State::Update => {
            launches.push(dispatch_per_cell(Stage::UpdateGridLabel, size));
            launches.push(dispatch_per_cell(Stage::AdvectLevelset, size));
            launches.push(dispatch_per_face(Stage::Advection, size));
            launches.push(dispatch_per_face(Stage::AddForce, size));
            launches.push(dispatch_per_cell(Stage::Divergence, size));
            let ghost head = launches@;
            let mut k: u32 = 0;
            while k < jacobi_iterations
                invariant
                    k <= jacobi_iterations,
                    launches@ =~= head + relaxation(k as nat, size),
                decreases jacobi_iterations - k,
            {
                let stage = if k % 2 == 0 {
                    Stage::JacobiIteration
                } else {
                    Stage::JacobiIterationReverse
                };
                launches.push(dispatch_per_cell(stage, size));
                k = k + 1;
            }
            launches.push(dispatch_per_face(Stage::SolveVelocity, size));
            launches.push(dispatch_per_cell(Stage::RecomputeLevelsetInitialization, size));
            let ghost middle = launches@;
            let mut m: usize = 0;
            while m < steps.len()
                invariant
                    m <= steps.len(),
                    launches@ =~= middle + flooding(steps@.subrange(0, m as int), size),
                decreases steps.len() - m,
            {
                launches.push(
                    dispatch_per_cell(
                        Stage::RecomputeLevelsetIteration { step: steps[m].step },
                        size,
                    ),
                );
                m = m + 1;
            }
            launches.push(dispatch_per_cell(Stage::RecomputeLevelsetSolve, size));
            proof {
                assert(steps@.subrange(0, steps@.len() as int) =~= steps@);
                assert(launches@ =~= plan_spec(state, size, jacobi_iterations as nat, steps@));
            }
        },
    }
    launches
}

} // verus!
