use steel_flint::chunk::{chunk_coord, chunk_of};
use steel_flint::setup::InitProgress;
use steel_flint::{init, InitAction, SetBlockPlan, TestWorldState};

fn init_test_registries() {
    let mut progress = InitProgress::new();
    while let InitAction::Run(step) = init(&progress) {
        progress.start(step);
        progress.finish(step);
    }
}

#[test]
fn test_world_creation() {
    init_test_registries();
    let world: TestWorldState<u32> = TestWorldState::new();
    assert_eq!(world.current_tick(), 0);
}

#[test]
fn test_world_tick() {
    init_test_registries();
    let mut world: TestWorldState<u32> = TestWorldState::new();
    assert_eq!(world.current_tick(), 0);

    world.do_tick();
    assert_eq!(world.current_tick(), 1);

    world.do_tick();
    world.do_tick();
    assert_eq!(world.current_tick(), 3);
}

#[test]
fn do_tick_hands_out_the_count_before_the_increment() {
    let mut world: TestWorldState<u32> = TestWorldState::new();
    assert_eq!(world.do_tick(), 0);
    assert_eq!(world.do_tick(), 1);
    assert_eq!(world.do_tick(), 2);
    assert_eq!(world.current_tick(), 3);
}

#[test]
fn chunk_coordinates_round_towards_negative_infinity() {
    assert_eq!(chunk_coord(0), 0);
    assert_eq!(chunk_coord(15), 0);
    assert_eq!(chunk_coord(16), 1);
    assert_eq!(chunk_coord(-1), -1);
    assert_eq!(chunk_coord(-16), -1);
    assert_eq!(chunk_coord(-17), -2);
    assert_eq!(chunk_coord(i32::MAX), 134_217_727);
    assert_eq!(chunk_coord(i32::MIN), -134_217_728);
}

#[test]
fn chunk_of_ignores_the_height() {
    assert_eq!(chunk_of([0, 64, 0]), (0, 0));
    assert_eq!(chunk_of([-1, -64, 33]), (-1, 2));
    assert_eq!(chunk_of([31, 319, -32]), (1, -2));
}

#[test]
fn a_chunk_without_retained_request_must_be_requested() {
    let world: TestWorldState<u32> = TestWorldState::new();
    assert_eq!(world.chunk_to_request([20, 64, -3], |_h: &u32| true), Some((1, -1)));
    assert_eq!(world.chunk_request((1, -1)), None);
}

#[test]
fn a_retained_request_is_kept_for_the_chunk() {
    let mut world: TestWorldState<u32> = TestWorldState::new();
    world.retain_chunk((1, -1), 7);
    assert_eq!(world.chunk_request((1, -1)), Some(&7));
    assert_eq!(world.chunk_request((0, 0)), None);
    assert_eq!(world.current_tick(), 0);
}

#[test]
fn a_ready_request_needs_no_new_request() {
    let mut world: TestWorldState<u32> = TestWorldState::new();
    world.retain_chunk((0, 0), 5);
    assert_eq!(world.chunk_to_request([15, 10, 15], |h: &u32| *h == 5), None);
    assert_eq!(world.chunk_request((0, 0)), Some(&5));
}

#[test]
fn a_request_not_ready_is_requested_again_and_replaced() {
    let mut world: TestWorldState<u32> = TestWorldState::new();
    world.retain_chunk((0, 0), 5);
    world.retain_chunk((6, 6), 6);
    assert_eq!(world.chunk_to_request([1, 2, 3], |_h: &u32| false), Some((0, 0)));
    world.retain_chunk((0, 0), 8);
    assert_eq!(world.chunk_request((0, 0)), Some(&8));
    assert_eq!(world.chunk_request((6, 6)), Some(&6));
}

#[test]
fn an_unknown_block_is_skipped_without_a_request() {
    let world: TestWorldState<u32> = TestWorldState::new();
    let plan: SetBlockPlan<u16> = world.plan_set_block([0, 64, 0], None, |_h: &u32| true);
    assert_eq!(plan, SetBlockPlan::Skip);
}

#[test]
fn a_known_block_in_an_unloaded_chunk_is_placed_after_a_request() {
    let world: TestWorldState<u32> = TestWorldState::new();
    let plan = world.plan_set_block([-5, 64, 40], Some(1u16), |_h: &u32| true);
    assert_eq!(plan, SetBlockPlan::RequestThenPlace((-1, 2), 1));
}

#[test]
fn a_known_block_in_a_loaded_chunk_is_placed_at_once() {
    let mut world: TestWorldState<u32> = TestWorldState::new();
    world.retain_chunk((-1, 2), 3);
    let plan = world.plan_set_block([-5, 64, 40], Some(1u16), |_h: &u32| true);
    assert_eq!(plan, SetBlockPlan::Place(1));
}
