use boids::geometry::{world_to_models, Model};
use boids::world::World;

#[test]
fn to_refs_points_at_every_agent_in_order() {
    let world = World(vec![10u32, 20, 30]);
    let refs = world.to_refs();
    assert_eq!(refs, vec![&10, &20, &30]);
    assert_eq!(world.len(), 3);
}

#[test]
fn to_refs_of_an_empty_world_is_empty() {
    let world: World<u32> = World(vec![]);
    assert!(world.to_refs().is_empty());
    assert_eq!(world.len(), 0);
}

#[test]
fn rest_of_world_leaves_out_exactly_one_index() {
    let world = World(vec![1u32, 2, 3, 4]);
    assert_eq!(world.rest_of_world(0), vec![&2, &3, &4]);
    assert_eq!(world.rest_of_world(1), vec![&1, &3, &4]);
    assert_eq!(world.rest_of_world(2), vec![&1, &2, &4]);
    assert_eq!(world.rest_of_world(3), vec![&1, &2, &3]);
}

#[test]
fn rest_of_world_keeps_equal_agents_apart_by_position() {
    let world = World(vec![7u32, 7, 7]);
    assert_eq!(world.rest_of_world(1), vec![&7, &7]);
}

#[test]
fn rest_of_a_single_agent_is_empty() {
    let world = World(vec![5u32]);
    assert!(world.rest_of_world(0).is_empty());
}

#[test]
fn map_with_rest_of_world_shows_each_agent_all_the_others() {
    let world = World(vec![1u32, 2, 3, 4]);
    let next = world.map_with_rest_of_world(|me: &u32, rest: &[&u32]| {
        assert_eq!(rest.len(), 3);
        assert!(!rest.contains(&me));
        rest.iter().map(|other| **other).sum::<u32>()
    });
    assert_eq!(next.0, vec![9, 8, 7, 6]);
}

#[test]
fn map_with_rest_of_world_reads_the_old_snapshot_only() {
    // Each agent becomes the largest of the others. Were agents that have
    // been handled already visible, the later ones would see the new values.
    let world = World(vec![1u32, 5, 2]);
    let next = world.map_with_rest_of_world(|_: &u32, rest: &[&u32]| {
        rest.iter().map(|other| **other).max().unwrap_or(0)
    });
    assert_eq!(next.0, vec![5, 2, 5]);
    assert_eq!(world.0, vec![1, 5, 2]);
}

#[test]
fn map_with_rest_of_world_on_an_empty_world_calls_nothing() {
    let world: World<u32> = World(vec![]);
    let next = world.map_with_rest_of_world(|_: &u32, _: &[&u32]| panic!("no agent to show"));
    assert!(next.0.is_empty());
}

#[test]
fn model_map_replaces_every_point_and_keeps_the_kind() {
    let model = Model(vec![1i32, 2, 3], 'L');
    let mapped = model.map(|p: &i32| p * 2);
    assert_eq!(mapped.0, vec![2, 4, 6]);
    assert_eq!(mapped.1, 'L');
    assert_eq!(model.0, vec![1, 2, 3]);
}

#[test]
fn world_to_models_goes_entity_by_entity_then_function_by_function() {
    let world = World(vec![1u32, 2, 3]);
    let funcs: Vec<Box<dyn Fn(&u32) -> u32>> = vec![Box::new(|e| e * 10), Box::new(|e| e * 100)];
    let models = world_to_models(&world, &funcs);
    assert_eq!(models, vec![10, 100, 20, 200, 30, 300]);
}

#[test]
fn world_to_models_without_functions_or_entities_is_empty() {
    let world = World(vec![1u32, 2, 3]);
    let none: Vec<Box<dyn Fn(&u32) -> u32>> = vec![];
    assert!(world_to_models(&world, &none).is_empty());
    let empty: World<u32> = World(vec![]);
    let funcs: Vec<Box<dyn Fn(&u32) -> u32>> = vec![Box::new(|e| e * 10)];
    assert!(world_to_models(&empty, &funcs).is_empty());
}
