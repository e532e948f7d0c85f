use eulerian_fluid::definition::JumpFloodingUniform;
use eulerian_fluid::dispatch::{
    dispatch_per_cell, dispatch_per_face, plan, Dispatch, Stage, WORKGROUP_SIZE,
};
use eulerian_fluid::jump_flooding_uniform::prepare_jump_flood_resource;
use eulerian_fluid::node::State;

fn cell(stage: Stage) -> Dispatch {
    Dispatch {
        stage,
        x: 64,
        y: 64,
        z: 1,
    }
}

fn face(stage: Stage) -> Dispatch {
    Dispatch {
        stage,
        x: 513,
        y: 8,
        z: 1,
    }
}

#[test]
fn work_groups_are_eight_cells_wide() {
    assert_eq!(WORKGROUP_SIZE, 8);
    assert_eq!(dispatch_per_cell(Stage::Divergence, (512, 512)), cell(Stage::Divergence));
    assert_eq!(dispatch_per_face(Stage::Advection, (512, 512)), face(Stage::Advection));
}

#[test]
fn partial_tiles_are_not_launched() {
    assert_eq!(
        dispatch_per_cell(Stage::Divergence, (100, 7)),
        Dispatch {
            stage: Stage::Divergence,
            x: 12,
            y: 0,
            z: 1
        }
    );
    assert_eq!(
        dispatch_per_face(Stage::AddForce, (100, 130)),
        Dispatch {
            stage: Stage::AddForce,
            x: 101,
            y: 2,
            z: 1
        }
    );
}

#[test]
fn loading_node_launches_nothing() {
    let steps = prepare_jump_flood_resource((512, 512));
    assert!(plan(State::Loading, (512, 512), 10, &steps.buffer).is_empty());
}

#[test]
fn initialization_launches_its_two_kernels() {
    let steps = prepare_jump_flood_resource((512, 512));
    assert_eq!(
        plan(State::Init, (512, 512), 10, &steps.buffer),
        vec![face(Stage::InitializeVelocity), cell(Stage::InitializeGridCenter)]
    );
}

#[test]
fn tick_launches_every_stage_in_order() {
    let steps = vec![
        JumpFloodingUniform { step: 2 },
        JumpFloodingUniform { step: 1 },
    ];
    assert_eq!(
        plan(State::Update, (512, 512), 3, &steps),
        vec![
            cell(Stage::UpdateGridLabel),
            cell(Stage::AdvectLevelset),
            face(Stage::Advection),
            face(Stage::AddForce),
            cell(Stage::Divergence),
            cell(Stage::JacobiIteration),
            cell(Stage::JacobiIterationReverse),
            cell(Stage::JacobiIteration),
            face(Stage::SolveVelocity),
            cell(Stage::RecomputeLevelsetInitialization),
            cell(Stage::RecomputeLevelsetIteration { step: 2 }),
            cell(Stage::RecomputeLevelsetIteration { step: 1 }),
            cell(Stage::RecomputeLevelsetSolve),
        ]
    );
}

#[test]
fn tick_without_relaxation_and_flooding_still_launches_the_rest() {
    let list = plan(State::Update, (512, 512), 0, &vec![]);
    assert_eq!(list.len(), 8);
    assert_eq!(list[4], cell(Stage::Divergence));
    assert_eq!(list[5], face(Stage::SolveVelocity));
}

#[test]
fn length_of_the_schedule_of_a_tick() {
    let steps = prepare_jump_flood_resource((512, 512));
    let list = plan(State::Update, (512, 512), 10, &steps.buffer);
    assert_eq!(list.len(), 5 + 10 + 2 + 9 + 1);
    assert_eq!(list[list.len() - 1], cell(Stage::RecomputeLevelsetSolve));
    assert_eq!(list[17], cell(Stage::RecomputeLevelsetIteration { step: 256 }));
}
